//! Specification-level models of the parsed data.
//!
//! Every executable type of the library has a view into one of these
//! models; the contracts of the parser, the type resolver and the emitter
//! are stated over them.

use vstd::prelude::*;

verus! {

/// Model of a bare (non-list) field type.
#[verifier::ext_equal]
pub ghost enum ConcreteKind {
    /// Dart `int`.
    Int,
    /// Dart `double`.
    Double,
    /// Dart `bool`.
    Bool,
    /// Dart `String`.
    Text,
    /// Dart `dynamic`: accepts any value, never marked nullable.
    Dynamic,
    /// Dart `DateTime`.
    Instant,
    /// An enum type, decoded by a name-based case lookup.
    EnumName(Seq<char>),
    /// Another model class with its own decode/encode contract.
    Custom(Seq<char>),
}

/// Model of a bare type together with its nullability.
#[verifier::ext_equal]
pub ghost struct ConcreteModel {
    pub kind: ConcreteKind,
    pub nullable: bool,
}

/// Model of a resolved field type: a bare type or a single list wrapper.
#[verifier::ext_equal]
pub ghost enum TypeModel {
    Bare(ConcreteModel),
    ListOf { elem: ConcreteModel, nullable: bool },
}

/// Model of the per-field option overrides.
#[verifier::ext_equal]
pub ghost struct OptionsModel {
    /// Explicit serialization-key override.
    pub key: Option<Seq<char>>,
    /// Reclassifies an otherwise-textual type as an enum reference.
    pub is_enum: bool,
}

/// Model of one declared field.
#[verifier::ext_equal]
pub ghost struct FieldModel {
    pub name: Seq<char>,
    pub typ: TypeModel,
    pub options: Option<OptionsModel>,
}

/// Model of one recognized class declaration.
#[verifier::ext_equal]
pub ghost struct ClassModel {
    pub name: Seq<char>,
    pub has_const_constructor: bool,
    pub fields: Seq<FieldModel>,
}

/// Model of one scanned unit: its path and its recognized classes in
/// declaration order.
#[verifier::ext_equal]
pub ghost struct FileModel {
    pub path: Seq<char>,
    pub classes: Seq<ClassModel>,
}

} // verus!
