//! The type resolver: classifies a field's raw type text into a closed
//! type model, and renders each resolved type back as Dart type text and
//! as JSON decode/encode expressions.
//!
//! Classification is a pure function of the raw text and the field's
//! option overrides: a trailing `?` marks nullability, a `List<...>`
//! wrapper marks a single-level list, a fixed vocabulary names the
//! primitives, an enum-forcing option reclassifies the bare token, and
//! everything else is an optimistic reference to another model class.

use vstd::prelude::*;

use crate::model::ConcreteKind;
use crate::model::ConcreteModel;
use crate::model::OptionsModel;
use crate::model::TypeModel;
use crate::options::FieldOptions;
use crate::text::alpha_char;
use crate::text::is_alpha;
use crate::text::str_eq;

verus! {

/// Whether the text ends with the nullability sigil.
pub open spec fn ends_nullable(s: Seq<char>) -> bool {
    s.len() > 0 && s[s.len() - 1] == '?'
}

/// The text with a trailing nullability sigil stripped.
pub open spec fn strip_sigil(s: Seq<char>) -> Seq<char> {
    if ends_nullable(s) {
        s.take(s.len() - 1)
    } else {
        s
    }
}

/// Classification of a bare (non-list) type text against the primitive
/// vocabulary; an unmatched token resolves to a custom reference.
pub open spec fn classify_bare(name: Seq<char>) -> ConcreteModel {
    let nullable = ends_nullable(name);
    let bare = strip_sigil(name);
    if bare == "int"@ {
        ConcreteModel { kind: ConcreteKind::Int, nullable }
    } else if bare == "double"@ {
        ConcreteModel { kind: ConcreteKind::Double, nullable }
    } else if bare == "bool"@ {
        ConcreteModel { kind: ConcreteKind::Bool, nullable }
    } else if bare == "dynamic"@ {
        ConcreteModel { kind: ConcreteKind::Dynamic, nullable: false }
    } else if bare == "String"@ {
        ConcreteModel { kind: ConcreteKind::Text, nullable }
    } else if bare == "DateTime"@ {
        ConcreteModel { kind: ConcreteKind::Instant, nullable }
    } else {
        ConcreteModel { kind: ConcreteKind::Custom(bare), nullable }
    }
}

/// The generic-list wrapper shape: `List<` then an identifier-like inner
/// text, closed by `>`. The sigil, if any, is stripped before this test.
pub open spec fn is_list_shape(bare: Seq<char>) -> bool {
    bare.len() >= 7 && bare.subrange(0, 5) == "List<"@ && bare[bare.len() - 1] == '>' && is_alpha(
        bare[5],
    )
}

/// The inner type text of a list wrapper.
pub open spec fn list_inner(bare: Seq<char>) -> Seq<char> {
    bare.subrange(5, bare.len() - 1)
}

/// Whether the field's options force an enum classification.
pub open spec fn force_enum(opts: Option<OptionsModel>) -> bool {
    opts is Some && opts->0.is_enum
}

/// Classification of a list's element text.
pub open spec fn classify_elem(inner: Seq<char>, forced: bool) -> ConcreteModel {
    if forced {
        ConcreteModel { kind: ConcreteKind::EnumName(strip_sigil(inner)), nullable: ends_nullable(inner) }
    } else {
        classify_bare(inner)
    }
}

/// Resolution of a field's raw type text under its option overrides.
pub open spec fn resolve_type(name: Seq<char>, opts: Option<OptionsModel>) -> TypeModel {
    let outer_null = ends_nullable(name);
    let bare = strip_sigil(name);
    if is_list_shape(bare) {
        TypeModel::ListOf { elem: classify_elem(list_inner(bare), force_enum(opts)), nullable: outer_null }
    } else if force_enum(opts) {
        TypeModel::Bare(ConcreteModel { kind: ConcreteKind::EnumName(bare), nullable: outer_null })
    } else {
        TypeModel::Bare(classify_bare(name))
    }
}

/// The Dart name of a bare type, without a nullability mark.
pub open spec fn kind_base(k: ConcreteKind) -> Seq<char> {
    match k {
        ConcreteKind::Int => "int"@,
        ConcreteKind::Double => "double"@,
        ConcreteKind::Bool => "bool"@,
        ConcreteKind::Text => "String"@,
        ConcreteKind::Dynamic => "dynamic"@,
        ConcreteKind::Instant => "DateTime"@,
        ConcreteKind::EnumName(n) => n,
        ConcreteKind::Custom(n) => n,
    }
}

/// The Dart type text of a bare type: its name, with `?` appended when it
/// is nullable — except `dynamic`, which already accepts absence.
pub open spec fn concrete_type_string(c: ConcreteModel) -> Seq<char> {
    if c.nullable && !(c.kind is Dynamic) {
        kind_base(c.kind) + "?"@
    } else {
        kind_base(c.kind)
    }
}

/// The Dart type text of a resolved type.
pub open spec fn type_string_model(t: TypeModel) -> Seq<char> {
    match t {
        TypeModel::Bare(c) => concrete_type_string(c),
        TypeModel::ListOf { elem, nullable } => {
            if nullable {
                "List<"@ + concrete_type_string(elem) + ">?"@
            } else {
                "List<"@ + concrete_type_string(elem) + ">"@
            }
        },
    }
}

/// The Dart type text of a resolved type with the outer nullability mark
/// dropped; a list's element keeps its own mark.
pub open spec fn non_null_type_string_model(t: TypeModel) -> Seq<char> {
    match t {
        TypeModel::Bare(c) => kind_base(c.kind),
        TypeModel::ListOf { elem, nullable } => "List<"@ + concrete_type_string(elem) + ">"@,
    }
}

/// The decode expression for a bare type, reading the raw value `key`.
pub open spec fn from_json_value_model(c: ConcreteModel, key: Seq<char>) -> Seq<char> {
    match c.kind {
        ConcreteKind::Custom(name) => {
            let factory = name + ".fromJson("@ + key + " as Map<String, dynamic>)"@;
            if c.nullable {
                key + " == null ? null : "@ + factory
            } else {
                factory
            }
        },
        ConcreteKind::Int => {
            if c.nullable {
                "("@ + key + " as num?)?.toInt()"@
            } else {
                "("@ + key + " as num).toInt()"@
            }
        },
        ConcreteKind::Double => {
            if c.nullable {
                "("@ + key + " as num?)?.toDouble()"@
            } else {
                "("@ + key + " as num).toDouble()"@
            }
        },
        ConcreteKind::EnumName(name) => {
            if c.nullable {
                key + " == null ? null : "@ + name + ".values.singleWhere((v) => v.name == "@
                    + key + " as String)"@
            } else {
                name + ".values.singleWhere((v) => v.name == "@ + key + " as String)"@
            }
        },
        ConcreteKind::Dynamic => key,
        ConcreteKind::Instant => {
            if c.nullable {
                key + " == null ? null : DateTime.parse("@ + key + " as String)"@
            } else {
                "DateTime.parse("@ + key + " as String)"@
            }
        },
        ConcreteKind::Bool => key + " as "@ + concrete_type_string(c),
        ConcreteKind::Text => key + " as "@ + concrete_type_string(c),
    }
}

/// The encode expression for a bare type, reading the field value `key`.
pub open spec fn to_json_value_model(c: ConcreteModel, key: Seq<char>) -> Seq<char> {
    let q: Seq<char> = if c.nullable { "?"@ } else { ""@ };
    match c.kind {
        ConcreteKind::Int => key,
        ConcreteKind::Double => key,
        ConcreteKind::Bool => key,
        ConcreteKind::Dynamic => key,
        ConcreteKind::Text => key,
        ConcreteKind::EnumName(n) => key + q + ".name"@,
        ConcreteKind::Instant => key + q + ".toIso8601String()"@,
        ConcreteKind::Custom(n) => key + q + ".toJson()"@,
    }
}

/// A bare (non-list) field type as parsed: the underlying kind and
/// whether the declaration marked it nullable.
pub struct Concrete {
    pub typ: ConcreteType,
    pub nullable: bool,
}

/// The closed set of bare type kinds.
pub enum ConcreteType {
    Int,
    Double,
    Bool,
    Text,
    Dynamic,
    DateTime,
    Enum(String),
    Custom(String),
}

impl View for ConcreteType {
    type V = ConcreteKind;

    open spec fn view(&self) -> ConcreteKind {
        match self {
            ConcreteType::Int => ConcreteKind::Int,
            ConcreteType::Double => ConcreteKind::Double,
            ConcreteType::Bool => ConcreteKind::Bool,
            ConcreteType::Text => ConcreteKind::Text,
            ConcreteType::Dynamic => ConcreteKind::Dynamic,
            ConcreteType::DateTime => ConcreteKind::Instant,
            ConcreteType::Enum(n) => ConcreteKind::EnumName(n@),
            ConcreteType::Custom(n) => ConcreteKind::Custom(n@),
        }
    }
}

impl View for Concrete {
    type V = ConcreteModel;

    open spec fn view(&self) -> ConcreteModel {
        ConcreteModel { kind: self.typ@, nullable: self.nullable }
    }
}

impl Concrete {
    pub fn new(typ: ConcreteType, nullable: bool) -> (r: Self)
        ensures
            r@ == (ConcreteModel { kind: typ@, nullable }),
    {
        Self { typ, nullable }
    }

    /// Classifies a bare type text against the primitive vocabulary.
    pub fn from_string(name: &str) -> (r: Self)
        ensures
            r@ == classify_bare(name@),
    {
        let n = name.unicode_len();
        let nullable = n > 0 && name.get_char(n - 1) == '?';
        let bare: &str = if nullable {
            name.substring_char(0, n - 1)
        } else {
            name
        };
        if str_eq(bare, "int") {
            Self { typ: ConcreteType::Int, nullable }
        } else if str_eq(bare, "double") {
            Self { typ: ConcreteType::Double, nullable }
        } else if str_eq(bare, "bool") {
            Self { typ: ConcreteType::Bool, nullable }
        } else if str_eq(bare, "dynamic") {
            Self { typ: ConcreteType::Dynamic, nullable: false }
        } else if str_eq(bare, "String") {
            Self { typ: ConcreteType::Text, nullable }
        } else if str_eq(bare, "DateTime") {
            Self { typ: ConcreteType::DateTime, nullable }
        } else {
            Self { typ: ConcreteType::Custom(String::from_str(bare)), nullable }
        }
    }

    /// The Dart type text, with the nullability mark where one is due.
    pub fn type_string(&self) -> (r: String)
        ensures
            r@ == concrete_type_string(self@),
    {
        let mut s = self.base_string();
        if self.nullable && !matches!(self.typ, ConcreteType::Dynamic) {
            s.append("?");
        }
        s
    }

    /// The Dart type text without a nullability mark.
    pub fn non_null_type_string(&self) -> (r: String)
        ensures
            r@ == kind_base(self@.kind),
    {
        self.base_string()
    }

    fn base_string(&self) -> (r: String)
        ensures
            r@ == kind_base(self@.kind),
    {
        match &self.typ {
            ConcreteType::Int => String::from_str("int"),
            ConcreteType::Double => String::from_str("double"),
            ConcreteType::Bool => String::from_str("bool"),
            ConcreteType::Text => String::from_str("String"),
            ConcreteType::Dynamic => String::from_str("dynamic"),
            ConcreteType::DateTime => String::from_str("DateTime"),
            ConcreteType::Enum(n) => n.clone(),
            ConcreteType::Custom(n) => n.clone(),
        }
    }

    /// Whether this is a custom reference to another model class.
    pub fn is_custom(&self) -> (r: bool)
        ensures
            r == (self@.kind is Custom),
    {
        matches!(self.typ, ConcreteType::Custom(_))
    }

    /// The decode expression that reads this type out of the raw value
    /// named by `key`.
    pub fn from_json_value(&self, key: String) -> (r: String)
        ensures
            r@ == from_json_value_model(self@, key@),
    {
        if self.is_custom() {
            let mut factory = self.non_null_type_string();
            factory.append(".fromJson(");
            factory.append(key.as_str());
            factory.append(" as Map<String, dynamic>)");
            if self.nullable {
                let mut s = key.clone();
                s.append(" == null ? null : ");
                s.append(factory.as_str());
                return s;
            }
            return factory;
        }
        match &self.typ {
            ConcreteType::Int => {
                let mut s = String::from_str("(");
                s.append(key.as_str());
                if self.nullable {
                    s.append(" as num?)?.toInt()");
                } else {
                    s.append(" as num).toInt()");
                }
                s
            },
            ConcreteType::Double => {
                let mut s = String::from_str("(");
                s.append(key.as_str());
                if self.nullable {
                    s.append(" as num?)?.toDouble()");
                } else {
                    s.append(" as num).toDouble()");
                }
                s
            },
            ConcreteType::Enum(n) => {
                let mut s = if self.nullable {
                    let mut t = key.clone();
                    t.append(" == null ? null : ");
                    t.append(n.as_str());
                    t
                } else {
                    n.clone()
                };
                s.append(".values.singleWhere((v) => v.name == ");
                s.append(key.as_str());
                s.append(" as String)");
                s
            },
            ConcreteType::Dynamic => key,
            ConcreteType::DateTime => {
                let mut s = if self.nullable {
                    let mut t = key.clone();
                    t.append(" == null ? null : DateTime.parse(");
                    t
                } else {
                    String::from_str("DateTime.parse(")
                };
                s.append(key.as_str());
                s.append(" as String)");
                s
            },
            _ => {
                let mut s = key;
                s.append(" as ");
                let t = self.type_string();
                s.append(t.as_str());
                s
            },
        }
    }

    /// The encode expression that writes the field value named by `key`.
    pub fn to_json_value(&self, key: String) -> (r: String)
        ensures
            r@ == to_json_value_model(self@, key@),
    {
        let q: &'static str = if self.nullable {
            "?"
        } else {
            ""
        };
        match &self.typ {
            ConcreteType::Enum(_) => {
                let mut s = key;
                s.append(q);
                s.append(".name");
                s
            },
            ConcreteType::DateTime => {
                let mut s = key;
                s.append(q);
                s.append(".toIso8601String()");
                s
            },
            ConcreteType::Custom(_) => {
                let mut s = key;
                s.append(q);
                s.append(".toJson()");
                s
            },
            _ => key,
        }
    }
}

/// A resolved field type: a bare type or a single list wrapper.
pub enum DartType {
    Concrete(Concrete),
    GenericList { typ: Concrete, nullable: bool },
}

impl View for DartType {
    type V = TypeModel;

    open spec fn view(&self) -> TypeModel {
        match self {
            DartType::Concrete(c) => TypeModel::Bare(c@),
            DartType::GenericList { typ, nullable } => TypeModel::ListOf {
                elem: typ@,
                nullable: *nullable,
            },
        }
    }
}

impl DartType {
    /// Resolves a field's raw type text under its option overrides.
    pub fn from_string_and_options(name: String, options: &Option<FieldOptions>) -> (r: Self)
        ensures
            r@ == resolve_type(name@, options.deep_view()),
    {
        let n = name.as_str().unicode_len();
        let nullable = n > 0 && name.as_str().get_char(n - 1) == '?';
        let bare: &str = if nullable {
            name.as_str().substring_char(0, n - 1)
        } else {
            name.as_str()
        };
        let bn = bare.unicode_len();
        let forced = match options {
            Some(o) => o.is_enum,
            None => false,
        };
        let is_list = bn >= 7 && str_eq(bare.substring_char(0, 5), "List<") && bare.get_char(
            bn - 1,
        ) == '>' && alpha_char(bare.get_char(5));
        if is_list {
            let inner = bare.substring_char(5, bn - 1);
            let elem = if forced {
                let in_n = inner.unicode_len();
                let e_null = in_n > 0 && inner.get_char(in_n - 1) == '?';
                let e_name: &str = if e_null {
                    inner.substring_char(0, in_n - 1)
                } else {
                    inner
                };
                Concrete { typ: ConcreteType::Enum(String::from_str(e_name)), nullable: e_null }
            } else {
                Concrete::from_string(inner)
            };
            DartType::GenericList { typ: elem, nullable }
        } else if forced {
            DartType::Concrete(
                Concrete { typ: ConcreteType::Enum(String::from_str(bare)), nullable },
            )
        } else {
            DartType::Concrete(Concrete::from_string(name.as_str()))
        }
    }

    /// The Dart type text of the resolved type.
    pub fn type_string(&self) -> (r: String)
        ensures
            r@ == type_string_model(self@),
    {
        match self {
            DartType::Concrete(c) => c.type_string(),
            DartType::GenericList { typ, nullable } => {
                let mut s = String::from_str("List<");
                let e = typ.type_string();
                s.append(e.as_str());
                if *nullable {
                    s.append(">?");
                } else {
                    s.append(">");
                }
                s
            },
        }
    }

    /// The Dart type text with the outer nullability mark dropped.
    pub fn non_null_type_string(&self) -> (r: String)
        ensures
            r@ == non_null_type_string_model(self@),
    {
        match self {
            DartType::Concrete(c) => c.non_null_type_string(),
            DartType::GenericList { typ, nullable: _ } => {
                let mut s = String::from_str("List<");
                let e = typ.type_string();
                s.append(e.as_str());
                s.append(">");
                s
            },
        }
    }
}

} // verus!
