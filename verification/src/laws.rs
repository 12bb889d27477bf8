//! Laws of the library, stated over the specification models and proved
//! once for all inputs.

use vstd::prelude::*;

use crate::decl::json_key_model;
use crate::emit::constructor_lines;
use crate::emit::ctor_field_line;
use crate::emit::decode_expr;
use crate::emit::decode_expr_of;
use crate::emit::encode_expr;
use crate::emit::from_json_field_line;
use crate::emit::from_json_lines;
use crate::emit::to_json_field_line;
use crate::emit::to_json_lines;
use crate::emit::unit_output;
use crate::file::spec_parse;
use crate::model::ClassModel;
use crate::model::FieldModel;

verus! {

/// A unit with zero recognized classes produces no output at all.
pub proof fn lemma_empty_unit(content: Seq<char>, path: Seq<char>)
    requires
        spec_parse(content).len() == 0,
    ensures
        unit_output(content, path) is None,
{
}

/// The pipeline is deterministic: identical input text and identifier
/// yield identical output.
pub proof fn lemma_deterministic(
    content1: Seq<char>,
    path1: Seq<char>,
    content2: Seq<char>,
    path2: Seq<char>,
)
    requires
        content1 == content2,
        path1 == path2,
    ensures
        unit_output(content1, path1) == unit_output(content2, path2),
{
}

/// For a class with N fields, the constructor renders exactly N required
/// named parameters, and the decoding factory and encoding function render
/// exactly N key mappings, all in declaration order.
pub proof fn lemma_member_arity(c: ClassModel)
    ensures
        constructor_lines(c).len() == (if c.fields.len() == 0 {
            1int
        } else {
            c.fields.len() + 2int
        }),
        forall|k: int|
            0 <= k < c.fields.len() ==> constructor_lines(c)[k + 1] == ctor_field_line(
                c.fields[k],
            ),
        from_json_lines(c).len() == c.fields.len() + 4,
        forall|k: int|
            0 <= k < c.fields.len() ==> from_json_lines(c)[k + 2] == from_json_field_line(
                c.fields[k],
            ),
        to_json_lines(c).len() == c.fields.len() + 2,
        forall|k: int|
            0 <= k < c.fields.len() ==> to_json_lines(c)[k + 1] == to_json_field_line(
                c.fields[k],
            ),
{
}

/// The decoding and encoding of one field agree on its serialization key:
/// the decode expression reads, and the encode entry writes, the one key
/// that `json_key_model` gives the field.
pub proof fn lemma_encode_decode_same_key(f: FieldModel)
    ensures
        decode_expr(f) == decode_expr_of("json['"@ + json_key_model(f) + "']"@, f),
        to_json_field_line(f) == "    '"@ + json_key_model(f) + "': "@ + encode_expr(f) + ","@,
{
}

} // verus!
