//! The code emitter: renders the recognized classes of one unit into the
//! full replacement text of the generated companion unit.
//!
//! For each class it renders, in fixed order: the constructor, the JSON
//! decoding factory, the field declarations, the JSON encoding function,
//! the `copyWith` builder, the textual representation, the structural
//! equality operator and the combined hash. Every rendered line is pinned
//! down by a specification function over the class model, so emission is
//! a pure function of the parsed model.

use vstd::prelude::*;

use crate::decl::json_key_model;
use crate::decl::DartClass;
use crate::decl::DartField;
use crate::file::file_name_from;
use crate::file::DartFile;
use crate::model::ClassModel;
use crate::model::FieldModel;
use crate::model::TypeModel;
use crate::types::from_json_value_model;
use crate::types::non_null_type_string_model;
use crate::types::to_json_value_model;
use crate::types::type_string_model;
use crate::types::Concrete;
use crate::types::ConcreteType;
use crate::types::DartType;

verus! {

/// One required named constructor parameter.
pub open spec fn ctor_field_line(f: FieldModel) -> Seq<char> {
    "    required this."@ + f.name + ","@
}

/// The constructor: const-qualified iff the declaration carried the
/// marker; a zero-argument form when there are no fields, else one
/// required named parameter per field in declaration order.
pub open spec fn constructor_lines(c: ClassModel) -> Seq<Seq<char>> {
    let ck: Seq<char> = if c.has_const_constructor {
        "const "@
    } else {
        ""@
    };
    if c.fields.len() == 0 {
        seq!["  "@ + ck + c.name + "();"@]
    } else {
        seq!["  "@ + ck + c.name + "({"@] + Seq::new(
            c.fields.len(),
            |k: int| ctor_field_line(c.fields[k]),
        ) + seq!["  });"@]
    }
}

/// The decode expression of one field as a function of the keyed lookup
/// text it reads.
pub open spec fn decode_expr_of(key: Seq<char>, f: FieldModel) -> Seq<char> {
    match f.typ {
        TypeModel::Bare(c) => from_json_value_model(c, key),
        TypeModel::ListOf { elem, nullable } => {
            let mapper = "(e) => "@ + from_json_value_model(elem, "e"@);
            if nullable {
                "("@ + key + " as List?)?.map("@ + mapper + ").toList()"@
            } else {
                "("@ + key + " as List).map("@ + mapper + ").toList()"@
            }
        },
    }
}

/// The decode expression of one field: its keyed lookup reads the field's
/// serialization key.
pub open spec fn decode_expr(f: FieldModel) -> Seq<char> {
    decode_expr_of("json['"@ + json_key_model(f) + "']"@, f)
}

/// One field's line inside the decoding factory.
pub open spec fn from_json_field_line(f: FieldModel) -> Seq<char> {
    "      "@ + f.name + ": "@ + decode_expr(f) + ","@
}

/// The decoding factory: one keyed decode expression per field, in
/// declaration order.
pub open spec fn from_json_lines(c: ClassModel) -> Seq<Seq<char>> {
    seq![
        "\n  factory "@ + c.name + ".fromJson(Map<String, dynamic> json) {"@,
        "    return "@ + c.name + "("@,
    ] + Seq::new(c.fields.len(), |k: int| from_json_field_line(c.fields[k])) + seq![
        "    );"@,
        "  }"@,
    ]
}

/// One overriding field declaration.
pub open spec fn field_decl_line(f: FieldModel) -> Seq<char> {
    "\n  @override\n  final "@ + type_string_model(f.typ) + " "@ + f.name + ";"@
}

/// The field declarations, one per field in declaration order.
pub open spec fn fields_lines(c: ClassModel) -> Seq<Seq<char>> {
    Seq::new(c.fields.len(), |k: int| field_decl_line(c.fields[k]))
}

/// The encode expression of one field. A list's elements are mapped
/// through their own encode expression only when the element type
/// requires transformation (custom, enum or temporal); other sequences
/// pass through untransformed.
pub open spec fn encode_expr(f: FieldModel) -> Seq<char> {
    match f.typ {
        TypeModel::Bare(c) => to_json_value_model(c, f.name),
        TypeModel::ListOf { elem, nullable } => {
            if elem.kind is Custom || elem.kind is Instant || elem.kind is EnumName {
                let mapper = "(e) => "@ + to_json_value_model(elem, "e"@);
                if nullable {
                    f.name + "?.map("@ + mapper + ").toList()"@
                } else {
                    f.name + ".map("@ + mapper + ").toList()"@
                }
            } else {
                f.name
            }
        },
    }
}

/// One field's entry inside the encoding function.
pub open spec fn to_json_field_line(f: FieldModel) -> Seq<char> {
    "    '"@ + json_key_model(f) + "': "@ + encode_expr(f) + ","@
}

/// The encoding function: one keyed encode expression per field, in
/// declaration order.
pub open spec fn to_json_lines(c: ClassModel) -> Seq<Seq<char>> {
    seq!["\n  Map<String, dynamic> toJson() => {"@] + Seq::new(
        c.fields.len(),
        |k: int| to_json_field_line(c.fields[k]),
    ) + seq!["  };"@]
}

/// One `copyWith` parameter: every field as an optional override, except
/// the opaque `dynamic` type, which already accepts any value.
pub open spec fn copy_param_line(f: FieldModel) -> Seq<char> {
    let is_dynamic_bare = f.typ matches TypeModel::Bare(c) && c.kind is Dynamic;
    if is_dynamic_bare {
        "    "@ + non_null_type_string_model(f.typ) + " "@ + f.name + ","@
    } else {
        "    "@ + non_null_type_string_model(f.typ) + "? "@ + f.name + ","@
    }
}

/// One `copyWith` fallback assignment.
pub open spec fn copy_assign_line(f: FieldModel) -> Seq<char> {
    "    "@ + f.name + ": "@ + f.name + " ?? this."@ + f.name + ","@
}

/// The `copyWith` builder: a degenerate no-argument form when there are
/// no fields, else one optional override per field falling back to the
/// current value.
pub open spec fn copy_with_lines(c: ClassModel) -> Seq<Seq<char>> {
    if c.fields.len() == 0 {
        seq!["\n  "@ + c.name + " copyWith() => "@ + c.name + "();"@]
    } else {
        seq!["\n  "@ + c.name + " copyWith({"@] + Seq::new(
            c.fields.len(),
            |k: int| copy_param_line(c.fields[k]),
        ) + seq!["  }) => "@ + c.name + "("@] + Seq::new(
            c.fields.len(),
            |k: int| copy_assign_line(c.fields[k]),
        ) + seq!["  );"@]
    }
}

/// One field's entry in the textual representation.
pub open spec fn to_string_field_line(f: FieldModel) -> Seq<char> {
    "    '"@ + f.name + ": $"@ + f.name + " '"@
}

/// The textual representation, listing every field name and value.
pub open spec fn to_string_lines(c: ClassModel) -> Seq<Seq<char>> {
    seq!["\n  @override\n  String toString() => '"@ + c.name + "('"@] + Seq::new(
        c.fields.len(),
        |k: int| to_string_field_line(c.fields[k]),
    ) + seq!["    ')';"@]
}

/// One field's pairwise comparison inside the equality operator.
pub open spec fn eq_part(f: FieldModel) -> Seq<char> {
    "      && other."@ + f.name + " == "@ + f.name
}

/// The parts from `k` on, joined with the separator.
pub open spec fn join_from(parts: Seq<Seq<char>>, sep: Seq<char>, k: int) -> Seq<char>
    decreases parts.len() - k,
{
    if k < 0 || k >= parts.len() {
        Seq::empty()
    } else if k == parts.len() - 1 {
        parts[k]
    } else {
        parts[k] + sep + join_from(parts, sep, k + 1)
    }
}

/// The structural equality operator: short-circuits true on identity; a
/// no-field class compares only by type identity, else every field is
/// compared pairwise.
pub open spec fn equal_lines(c: ClassModel) -> Seq<Seq<char>> {
    seq![
        "\n  @override\n  bool operator ==(Object other) {"@,
        "    if (identical(this, other)) return true;"@,
    ] + (if c.fields.len() == 0 {
        seq!["    return other is "@ + c.name + ";"@]
    } else {
        seq![
            "    return other is "@ + c.name,
            join_from(Seq::new(c.fields.len(), |k: int| eq_part(c.fields[k])), "\n"@, 0) + ";"@,
        ]
    }) + seq!["  }"@]
}

/// One field's term in the combined hash.
pub open spec fn hash_field_line(f: FieldModel) -> Seq<char> {
    "    "@ + f.name + ".hashCode,"@
}

/// The combined hash over all field hashes in declaration order; a
/// no-field class delegates to the inherited hash.
pub open spec fn hash_lines(c: ClassModel) -> Seq<Seq<char>> {
    seq!["\n  @override"@] + (if c.fields.len() == 0 {
        seq!["  int get hashCode => super.hashCode;"@]
    } else {
        seq!["  int get hashCode => Object.hashAll(["@] + Seq::new(
            c.fields.len(),
            |k: int| hash_field_line(c.fields[k]),
        ) + seq!["  ]);"@]
    })
}

/// The pairwise comparisons of all fields, in declaration order.
pub open spec fn eq_parts(fs: Seq<FieldModel>) -> Seq<Seq<char>> {
    Seq::new(fs.len(), |k: int| eq_part(fs[k]))
}

/// The opening line of one generated class.
pub open spec fn class_header_line(c: ClassModel) -> Seq<char> {
    "\nclass "@ + c.name + " extends _"@ + c.name + " {"@
}

/// All lines of one generated class, in the fixed member order.
pub open spec fn class_lines(c: ClassModel) -> Seq<Seq<char>> {
    seq![class_header_line(c)] + constructor_lines(c) + from_json_lines(c) + fields_lines(c)
        + to_json_lines(c) + copy_with_lines(c) + to_string_lines(c) + equal_lines(c) + hash_lines(
        c,
    ) + seq!["}\n"@]
}

/// The lines of the classes from `k` on, concatenated.
pub open spec fn classes_lines_from(cs: Seq<ClassModel>, k: int) -> Seq<Seq<char>>
    decreases cs.len() - k,
{
    if k < 0 || k >= cs.len() {
        Seq::empty()
    } else {
        class_lines(cs[k]) + classes_lines_from(cs, k + 1)
    }
}

/// All lines of the generated unit: the fixed preamble, the `part of`
/// header over the unit's file name, then every class in order.
pub open spec fn unit_lines(file_name: Seq<char>, cs: Seq<ClassModel>) -> Seq<Seq<char>> {
    seq![
        "// dart format off\n"@,
        "// ignore_for_file: avoid_equals_and_hash_code_on_mutable_classes, document_ignores, lines_longer_than_80_chars"@,
        "\npart of '"@ + file_name + "';"@,
    ] + classes_lines_from(cs, 0)
}

/// The full generated text for a unit with at least one recognized class:
/// its lines joined by newlines.
pub open spec fn spec_generate(file_name: Seq<char>, cs: Seq<ClassModel>) -> Seq<char> {
    join_from(unit_lines(file_name, cs), "\n"@, 0)
}

/// The whole pipeline on one unit: the replacement text generated for its
/// content, or nothing when no class is recognized.
pub open spec fn unit_output(content: Seq<char>, path: Seq<char>) -> Option<Seq<char>> {
    let cs = crate::file::spec_parse(content);
    if cs.len() == 0 {
        None
    } else {
        Some(spec_generate(file_name_from(path), cs))
    }
}

/// Parses a unit's text and renders the generated companion text, or
/// nothing when the unit holds no recognized classes.
pub fn generate_unit(content: &str, path: &str) -> (r: Option<String>)
    ensures
        r is Some <==> unit_output(content@, path@) is Some,
        r is Some ==> r->0@ == unit_output(content@, path@)->0,
{
    let file = DartFile::from_string(content, path);
    file.generate()
}

impl DartFile {
    fn push_line(lines: &mut Vec<String>, s: String)
        ensures
            final(lines).deep_view() == old(lines).deep_view() + seq![s@],
    {
        lines.push(s);
        proof {
            assert(lines.deep_view() =~= old(lines).deep_view() + seq![s@]);
        }
    }

    /// Renders the constructor.
    pub fn add_constructor(class: &DartClass, lines: &mut Vec<String>)
        ensures
            final(lines).deep_view() == old(lines).deep_view() + constructor_lines(class@),
    {
        let ck: &'static str = if class.has_const_constructor {
            "const "
        } else {
            ""
        };
        if class.fields.len() == 0 {
            let mut s = String::from_str("  ");
            s.append(ck);
            s.append(class.name.as_str());
            s.append("();");
            Self::push_line(lines, s);
            proof {
                assert(lines.deep_view() =~= old(lines).deep_view() + constructor_lines(class@));
            }
        } else {
            let mut s = String::from_str("  ");
            s.append(ck);
            s.append(class.name.as_str());
            s.append("({");
            Self::push_line(lines, s);
            Self::push_ctor_params(&class.fields, 0, lines);
            Self::push_line(lines, String::from_str("  });"));
            proof {
                assert(Seq::new(
                    class@.fields.len(),
                    |j: int| ctor_field_line(class.fields.deep_view()[0 + j]),
                ) =~= Seq::new(class@.fields.len(), |k: int| ctor_field_line(class@.fields[k])));
                assert(lines.deep_view() =~= old(lines).deep_view() + constructor_lines(class@));
            }
        }
    }

    fn push_ctor_params(fields: &Vec<DartField>, k: usize, lines: &mut Vec<String>)
        requires
            k <= fields@.len(),
        ensures
            final(lines).deep_view() == old(lines).deep_view() + Seq::new(
                (fields@.len() - k) as nat,
                |j: int| ctor_field_line(fields.deep_view()[k + j]),
            ),
        decreases fields@.len() - k,
    {
        if k < fields.len() {
            let mut s = String::from_str("    required this.");
            s.append(fields[k].name.as_str());
            s.append(",");
            lines.push(s);
            Self::push_ctor_params(fields, k + 1, lines);
            proof {
                assert(lines.deep_view() =~= old(lines).deep_view() + Seq::new(
                    (fields@.len() - k) as nat,
                    |j: int| ctor_field_line(fields.deep_view()[k + j]),
                ));
            }
        } else {
            proof {
                assert(lines.deep_view() =~= old(lines).deep_view() + Seq::new(
                    (fields@.len() - k) as nat,
                    |j: int| ctor_field_line(fields.deep_view()[k + j]),
                ));
            }
        }
    }

    /// Renders one whole class.
    fn add_class(class: &DartClass, lines: &mut Vec<String>)
        ensures
            final(lines).deep_view() == old(lines).deep_view() + class_lines(class@),
    {
        let mut h = String::from_str("\nclass ");
        h.append(class.name.as_str());
        h.append(" extends _");
        h.append(class.name.as_str());
        h.append(" {");
        Self::push_line(lines, h);
        Self::add_constructor(class, lines);
        Self::add_from_json(class, lines);
        Self::add_fields(class, lines);
        Self::add_to_json(class, lines);
        Self::add_copy_with(class, lines);
        Self::add_to_string(class, lines);
        Self::add_equal_operator(class, lines);
        Self::add_hash_code(class, lines);
        Self::push_line(lines, String::from_str("}\n"));
        proof {
            assert(lines.deep_view() =~= old(lines).deep_view() + class_lines(class@));
        }
    }

    fn push_classes(classes: &Vec<DartClass>, k: usize, lines: &mut Vec<String>)
        requires
            k <= classes@.len(),
        ensures
            final(lines).deep_view() == old(lines).deep_view() + classes_lines_from(
                classes.deep_view(),
                k as int,
            ),
        decreases classes@.len() - k,
    {
        if k < classes.len() {
            Self::add_class(&classes[k], lines);
            Self::push_classes(classes, k + 1, lines);
            proof {
                assert(lines.deep_view() =~= old(lines).deep_view() + classes_lines_from(
                    classes.deep_view(),
                    k as int,
                ));
            }
        } else {
            proof {
                assert(lines.deep_view() =~= old(lines).deep_view() + classes_lines_from(
                    classes.deep_view(),
                    k as int,
                ));
            }
        }
    }

    fn join_lines(lines: &Vec<String>, k: usize, out: &mut String)
        requires
            k <= lines@.len(),
        ensures
            final(out)@ == old(out)@ + join_from(lines.deep_view(), "\n"@, k as int),
        decreases lines@.len() - k,
    {
        if k == lines.len() {
            proof {
                assert(out@ =~= old(out)@ + join_from(lines.deep_view(), "\n"@, k as int));
            }
            return ;
        }
        out.append(lines[k].as_str());
        if k + 1 < lines.len() {
            out.append("\n");
            Self::join_lines(lines, k + 1, out);
        }
        proof {
            assert(out@ =~= old(out)@ + join_from(lines.deep_view(), "\n"@, k as int));
        }
    }

    /// Renders the full replacement text of the generated companion unit,
    /// or nothing when the unit holds no recognized classes.
    pub fn generate(&self) -> (r: Option<String>)
        ensures
            r is Some <==> self@.classes.len() > 0,
            r is Some ==> r->0@ == spec_generate(file_name_from(self@.path), self@.classes),
    {
        if self.classes.len() == 0 {
            return None;
        }
        let mut lines: Vec<String> = Vec::new();
        Self::push_line(&mut lines, String::from_str("// dart format off\n"));
        Self::push_line(
            &mut lines,
            String::from_str(
                "// ignore_for_file: avoid_equals_and_hash_code_on_mutable_classes, document_ignores, lines_longer_than_80_chars",
            ),
        );
        let mut part = String::from_str("\npart of '");
        let fname = self.file_name();
        part.append(fname.as_str());
        part.append("';");
        Self::push_line(&mut lines, part);
        Self::push_classes(&self.classes, 0, &mut lines);
        proof {
            assert(lines.deep_view() =~= unit_lines(file_name_from(self@.path), self@.classes));
        }
        let mut out = String::from_str("");
        Self::join_lines(&lines, 0, &mut out);
        proof {
            reveal_strlit("");
            assert(out@ =~= spec_generate(file_name_from(self@.path), self@.classes));
        }
        Some(out)
    }

    /// Renders the overriding field declarations.
    pub fn add_fields(class: &DartClass, lines: &mut Vec<String>)
        ensures
            final(lines).deep_view() == old(lines).deep_view() + fields_lines(class@),
    {
        Self::push_field_decls(&class.fields, 0, lines);
        proof {
            assert(lines.deep_view() =~= old(lines).deep_view() + fields_lines(class@));
        }
    }

    fn decode_expr_exec(f: &DartField) -> (r: String)
        ensures
            r@ == decode_expr(f@),
    {
        let mut key = String::from_str("json['");
        let jk = f.json_key();
        key.append(jk.as_str());
        key.append("']");
        match &f.typ {
            DartType::Concrete(c) => c.from_json_value(key),
            DartType::GenericList { typ, nullable } => {
                let mut mapper = String::from_str("(e) => ");
                let inner = typ.from_json_value(String::from_str("e"));
                mapper.append(inner.as_str());
                let mut s = String::from_str("(");
                s.append(key.as_str());
                if *nullable {
                    s.append(" as List?)?.map(");
                } else {
                    s.append(" as List).map(");
                }
                s.append(mapper.as_str());
                s.append(").toList()");
                s
            },
        }
    }

    /// Renders the JSON decoding factory.
    pub fn add_from_json(class: &DartClass, lines: &mut Vec<String>)
        ensures
            final(lines).deep_view() == old(lines).deep_view() + from_json_lines(class@),
    {
        let mut h1 = String::from_str("\n  factory ");
        h1.append(class.name.as_str());
        h1.append(".fromJson(Map<String, dynamic> json) {");
        Self::push_line(lines, h1);
        let mut h2 = String::from_str("    return ");
        h2.append(class.name.as_str());
        h2.append("(");
        Self::push_line(lines, h2);
        Self::push_from_json_fields(&class.fields, 0, lines);
        Self::push_line(lines, String::from_str("    );"));
        Self::push_line(lines, String::from_str("  }"));
        proof {
            assert(Seq::new(
                class@.fields.len(),
                |j: int| from_json_field_line(class.fields.deep_view()[0 + j]),
            ) =~= Seq::new(
                class@.fields.len(),
                |k: int| from_json_field_line(class@.fields[k]),
            ));
            assert(lines.deep_view() =~= old(lines).deep_view() + from_json_lines(class@));
        }
    }

    fn push_from_json_fields(fields: &Vec<DartField>, k: usize, lines: &mut Vec<String>)
        requires
            k <= fields@.len(),
        ensures
            final(lines).deep_view() == old(lines).deep_view() + Seq::new(
                (fields@.len() - k) as nat,
                |j: int| from_json_field_line(fields.deep_view()[k + j]),
            ),
        decreases fields@.len() - k,
    {
        if k < fields.len() {
            let mut s = String::from_str("      ");
            s.append(fields[k].name.as_str());
            s.append(": ");
            let e = Self::decode_expr_exec(&fields[k]);
            s.append(e.as_str());
            s.append(",");
            lines.push(s);
            Self::push_from_json_fields(fields, k + 1, lines);
            proof {
                assert(lines.deep_view() =~= old(lines).deep_view() + Seq::new(
                    (fields@.len() - k) as nat,
                    |j: int| from_json_field_line(fields.deep_view()[k + j]),
                ));
            }
        } else {
            proof {
                assert(lines.deep_view() =~= old(lines).deep_view() + Seq::new(
                    (fields@.len() - k) as nat,
                    |j: int| from_json_field_line(fields.deep_view()[k + j]),
                ));
            }
        }
    }

    fn encode_expr_exec(f: &DartField) -> (r: String)
        ensures
            r@ == encode_expr(f@),
    {
        match &f.typ {
            DartType::Concrete(c) => c.to_json_value(f.name.clone()),
            DartType::GenericList { typ, nullable } => {
                let transformed = typ.is_custom() || matches!(
                    typ.typ,
                    ConcreteType::DateTime | ConcreteType::Enum(_),
                );
                if transformed {
                    let mut mapper = String::from_str("(e) => ");
                    let inner = typ.to_json_value(String::from_str("e"));
                    mapper.append(inner.as_str());
                    let mut s = f.name.clone();
                    if *nullable {
                        s.append("?.map(");
                    } else {
                        s.append(".map(");
                    }
                    s.append(mapper.as_str());
                    s.append(").toList()");
                    s
                } else {
                    f.name.clone()
                }
            },
        }
    }

    /// Renders the JSON encoding function.
    pub fn add_to_json(class: &DartClass, lines: &mut Vec<String>)
        ensures
            final(lines).deep_view() == old(lines).deep_view() + to_json_lines(class@),
    {
        Self::push_line(lines, String::from_str("\n  Map<String, dynamic> toJson() => {"));
        Self::push_to_json_fields(&class.fields, 0, lines);
        Self::push_line(lines, String::from_str("  };"));
        proof {
            assert(Seq::new(
                class@.fields.len(),
                |j: int| to_json_field_line(class.fields.deep_view()[0 + j]),
            ) =~= Seq::new(class@.fields.len(), |k: int| to_json_field_line(class@.fields[k])));
            assert(lines.deep_view() =~= old(lines).deep_view() + to_json_lines(class@));
        }
    }

    fn push_to_json_fields(fields: &Vec<DartField>, k: usize, lines: &mut Vec<String>)
        requires
            k <= fields@.len(),
        ensures
            final(lines).deep_view() == old(lines).deep_view() + Seq::new(
                (fields@.len() - k) as nat,
                |j: int| to_json_field_line(fields.deep_view()[k + j]),
            ),
        decreases fields@.len() - k,
    {
        if k < fields.len() {
            let mut s = String::from_str("    '");
            let jk = fields[k].json_key();
            s.append(jk.as_str());
            s.append("': ");
            let e = Self::encode_expr_exec(&fields[k]);
            s.append(e.as_str());
            s.append(",");
            lines.push(s);
            Self::push_to_json_fields(fields, k + 1, lines);
            proof {
                assert(lines.deep_view() =~= old(lines).deep_view() + Seq::new(
                    (fields@.len() - k) as nat,
                    |j: int| to_json_field_line(fields.deep_view()[k + j]),
                ));
            }
        } else {
            proof {
                assert(lines.deep_view() =~= old(lines).deep_view() + Seq::new(
                    (fields@.len() - k) as nat,
                    |j: int| to_json_field_line(fields.deep_view()[k + j]),
                ));
            }
        }
    }

    /// Renders the `copyWith` builder.
    pub fn add_copy_with(class: &DartClass, lines: &mut Vec<String>)
        ensures
            final(lines).deep_view() == old(lines).deep_view() + copy_with_lines(class@),
    {
        if class.fields.len() == 0 {
            let mut s = String::from_str("\n  ");
            s.append(class.name.as_str());
            s.append(" copyWith() => ");
            s.append(class.name.as_str());
            s.append("();");
            Self::push_line(lines, s);
            proof {
                assert(lines.deep_view() =~= old(lines).deep_view() + copy_with_lines(class@));
            }
        } else {
            let mut h = String::from_str("\n  ");
            h.append(class.name.as_str());
            h.append(" copyWith({");
            Self::push_line(lines, h);
            Self::push_copy_params(&class.fields, 0, lines);
            let mut m = String::from_str("  }) => ");
            m.append(class.name.as_str());
            m.append("(");
            Self::push_line(lines, m);
            Self::push_copy_assigns(&class.fields, 0, lines);
            Self::push_line(lines, String::from_str("  );"));
            proof {
                assert(Seq::new(
                    class@.fields.len(),
                    |j: int| copy_param_line(class.fields.deep_view()[0 + j]),
                ) =~= Seq::new(class@.fields.len(), |k: int| copy_param_line(class@.fields[k])));
                assert(Seq::new(
                    class@.fields.len(),
                    |j: int| copy_assign_line(class.fields.deep_view()[0 + j]),
                ) =~= Seq::new(class@.fields.len(), |k: int| copy_assign_line(class@.fields[k])));
                assert(lines.deep_view() =~= old(lines).deep_view() + copy_with_lines(class@));
            }
        }
    }

    fn push_copy_params(fields: &Vec<DartField>, k: usize, lines: &mut Vec<String>)
        requires
            k <= fields@.len(),
        ensures
            final(lines).deep_view() == old(lines).deep_view() + Seq::new(
                (fields@.len() - k) as nat,
                |j: int| copy_param_line(fields.deep_view()[k + j]),
            ),
        decreases fields@.len() - k,
    {
        if k < fields.len() {
            let mut s = String::from_str("    ");
            let t = fields[k].typ.non_null_type_string();
            s.append(t.as_str());
            let is_dynamic_bare = matches!(
                &fields[k].typ,
                DartType::Concrete(Concrete { typ: ConcreteType::Dynamic, .. }),
            );
            if is_dynamic_bare {
                s.append(" ");
            } else {
                s.append("? ");
            }
            s.append(fields[k].name.as_str());
            s.append(",");
            lines.push(s);
            Self::push_copy_params(fields, k + 1, lines);
            proof {
                assert(lines.deep_view() =~= old(lines).deep_view() + Seq::new(
                    (fields@.len() - k) as nat,
                    |j: int| copy_param_line(fields.deep_view()[k + j]),
                ));
            }
        } else {
            proof {
                assert(lines.deep_view() =~= old(lines).deep_view() + Seq::new(
                    (fields@.len() - k) as nat,
                    |j: int| copy_param_line(fields.deep_view()[k + j]),
                ));
            }
        }
    }

    fn push_copy_assigns(fields: &Vec<DartField>, k: usize, lines: &mut Vec<String>)
        requires
            k <= fields@.len(),
        ensures
            final(lines).deep_view() == old(lines).deep_view() + Seq::new(
                (fields@.len() - k) as nat,
                |j: int| copy_assign_line(fields.deep_view()[k + j]),
            ),
        decreases fields@.len() - k,
    {
        if k < fields.len() {
            let mut s = String::from_str("    ");
            s.append(fields[k].name.as_str());
            s.append(": ");
            s.append(fields[k].name.as_str());
            s.append(" ?? this.");
            s.append(fields[k].name.as_str());
            s.append(",");
            lines.push(s);
            Self::push_copy_assigns(fields, k + 1, lines);
            proof {
                assert(lines.deep_view() =~= old(lines).deep_view() + Seq::new(
                    (fields@.len() - k) as nat,
                    |j: int| copy_assign_line(fields.deep_view()[k + j]),
                ));
            }
        } else {
            proof {
                assert(lines.deep_view() =~= old(lines).deep_view() + Seq::new(
                    (fields@.len() - k) as nat,
                    |j: int| copy_assign_line(fields.deep_view()[k + j]),
                ));
            }
        }
    }

    /// Renders the textual representation.
    pub fn add_to_string(class: &DartClass, lines: &mut Vec<String>)
        ensures
            final(lines).deep_view() == old(lines).deep_view() + to_string_lines(class@),
    {
        let mut h = String::from_str("\n  @override\n  String toString() => '");
        h.append(class.name.as_str());
        h.append("('");
        Self::push_line(lines, h);
        Self::push_to_string_fields(&class.fields, 0, lines);
        Self::push_line(lines, String::from_str("    ')';"));
        proof {
            assert(Seq::new(
                class@.fields.len(),
                |j: int| to_string_field_line(class.fields.deep_view()[0 + j]),
            ) =~= Seq::new(
                class@.fields.len(),
                |k: int| to_string_field_line(class@.fields[k]),
            ));
            assert(lines.deep_view() =~= old(lines).deep_view() + to_string_lines(class@));
        }
    }

    fn push_to_string_fields(fields: &Vec<DartField>, k: usize, lines: &mut Vec<String>)
        requires
            k <= fields@.len(),
        ensures
            final(lines).deep_view() == old(lines).deep_view() + Seq::new(
                (fields@.len() - k) as nat,
                |j: int| to_string_field_line(fields.deep_view()[k + j]),
            ),
        decreases fields@.len() - k,
    {
        if k < fields.len() {
            let mut s = String::from_str("    '");
            s.append(fields[k].name.as_str());
            s.append(": $");
            s.append(fields[k].name.as_str());
            s.append(" '");
            lines.push(s);
            Self::push_to_string_fields(fields, k + 1, lines);
            proof {
                assert(lines.deep_view() =~= old(lines).deep_view() + Seq::new(
                    (fields@.len() - k) as nat,
                    |j: int| to_string_field_line(fields.deep_view()[k + j]),
                ));
            }
        } else {
            proof {
                assert(lines.deep_view() =~= old(lines).deep_view() + Seq::new(
                    (fields@.len() - k) as nat,
                    |j: int| to_string_field_line(fields.deep_view()[k + j]),
                ));
            }
        }
    }

    /// Renders the structural equality operator.
    pub fn add_equal_operator(class: &DartClass, lines: &mut Vec<String>)
        ensures
            final(lines).deep_view() == old(lines).deep_view() + equal_lines(class@),
    {
        Self::push_line(lines, String::from_str("\n  @override\n  bool operator ==(Object other) {"));
        Self::push_line(lines, String::from_str("    if (identical(this, other)) return true;"));
        if class.fields.len() == 0 {
            let mut s = String::from_str("    return other is ");
            s.append(class.name.as_str());
            s.append(";");
            Self::push_line(lines, s);
        } else {
            let mut h = String::from_str("    return other is ");
            h.append(class.name.as_str());
            Self::push_line(lines, h);
            let mut jl = String::from_str("");
            Self::push_eq_join(&class.fields, 0, &mut jl);
            jl.append(";");
            proof {
                reveal_strlit("");
                assert(Seq::new(
                    class.fields.deep_view().len(),
                    |k: int| eq_part(class.fields.deep_view()[k]),
                ) =~= eq_parts(class@.fields));
                assert(jl@ =~= join_from(eq_parts(class@.fields), "\n"@, 0) + ";"@);
            }
            Self::push_line(lines, jl);
        }
        Self::push_line(lines, String::from_str("  }"));
        proof {
            assert(lines.deep_view() =~= old(lines).deep_view() + equal_lines(class@));
        }
    }

    fn push_eq_join(fields: &Vec<DartField>, k: usize, out: &mut String)
        requires
            k < fields@.len(),
        ensures
            final(out)@ == old(out)@ + join_from(
                Seq::new(fields.deep_view().len(), |i: int| eq_part(fields.deep_view()[i])),
                "\n"@,
                k as int,
            ),
        decreases fields@.len() - k,
    {
        out.append("      && other.");
        out.append(fields[k].name.as_str());
        out.append(" == ");
        out.append(fields[k].name.as_str());
        if k < fields.len() - 1 {
            out.append("\n");
            Self::push_eq_join(fields, k + 1, out);
            proof {
                assert(out@ =~= old(out)@ + join_from(
                    Seq::new(fields.deep_view().len(), |i: int| eq_part(fields.deep_view()[i])),
                    "\n"@,
                    k as int,
                ));
            }
        } else {
            proof {
                assert(out@ =~= old(out)@ + join_from(
                    Seq::new(fields.deep_view().len(), |i: int| eq_part(fields.deep_view()[i])),
                    "\n"@,
                    k as int,
                ));
            }
        }
    }

    /// Renders the combined hash.
    pub fn add_hash_code(class: &DartClass, lines: &mut Vec<String>)
        ensures
            final(lines).deep_view() == old(lines).deep_view() + hash_lines(class@),
    {
        Self::push_line(lines, String::from_str("\n  @override"));
        if class.fields.len() == 0 {
            Self::push_line(lines, String::from_str("  int get hashCode => super.hashCode;"));
        } else {
            Self::push_line(lines, String::from_str("  int get hashCode => Object.hashAll(["));
            Self::push_hash_fields(&class.fields, 0, lines);
            Self::push_line(lines, String::from_str("  ]);"));
            proof {
                assert(Seq::new(
                    class@.fields.len(),
                    |j: int| hash_field_line(class.fields.deep_view()[0 + j]),
                ) =~= Seq::new(class@.fields.len(), |k: int| hash_field_line(class@.fields[k])));
            }
        }
        proof {
            assert(lines.deep_view() =~= old(lines).deep_view() + hash_lines(class@));
        }
    }

    fn push_hash_fields(fields: &Vec<DartField>, k: usize, lines: &mut Vec<String>)
        requires
            k <= fields@.len(),
        ensures
            final(lines).deep_view() == old(lines).deep_view() + Seq::new(
                (fields@.len() - k) as nat,
                |j: int| hash_field_line(fields.deep_view()[k + j]),
            ),
        decreases fields@.len() - k,
    {
        if k < fields.len() {
            let mut s = String::from_str("    ");
            s.append(fields[k].name.as_str());
            s.append(".hashCode,");
            lines.push(s);
            Self::push_hash_fields(fields, k + 1, lines);
            proof {
                assert(lines.deep_view() =~= old(lines).deep_view() + Seq::new(
                    (fields@.len() - k) as nat,
                    |j: int| hash_field_line(fields.deep_view()[k + j]),
                ));
            }
        } else {
            proof {
                assert(lines.deep_view() =~= old(lines).deep_view() + Seq::new(
                    (fields@.len() - k) as nat,
                    |j: int| hash_field_line(fields.deep_view()[k + j]),
                ));
            }
        }
    }

    fn push_field_decls(fields: &Vec<DartField>, k: usize, lines: &mut Vec<String>)
        requires
            k <= fields@.len(),
        ensures
            final(lines).deep_view() == old(lines).deep_view() + Seq::new(
                (fields@.len() - k) as nat,
                |j: int| field_decl_line(fields.deep_view()[k + j]),
            ),
        decreases fields@.len() - k,
    {
        if k < fields.len() {
            let mut s = String::from_str("\n  @override\n  final ");
            let t = fields[k].typ.type_string();
            s.append(t.as_str());
            s.append(" ");
            s.append(fields[k].name.as_str());
            s.append(";");
            lines.push(s);
            Self::push_field_decls(fields, k + 1, lines);
            proof {
                assert(lines.deep_view() =~= old(lines).deep_view() + Seq::new(
                    (fields@.len() - k) as nat,
                    |j: int| field_decl_line(fields.deep_view()[k + j]),
                ));
            }
        } else {
            proof {
                assert(lines.deep_view() =~= old(lines).deep_view() + Seq::new(
                    (fields@.len() - k) as nat,
                    |j: int| field_decl_line(fields.deep_view()[k + j]),
                ));
            }
        }
    }
}

} // verus!
