//! The laws of the grammar: what the parser promises of whole classes of
//! inputs.

use vstd::prelude::*;

verus! {

use crate::ast::DataTypeV;
use crate::parser::data_type::ascii_bytes;
use crate::parser::data_type::match_at;
use crate::parser::data_type::spec_parse_type;
use crate::parser::data_type::spec_parse_user_type;
use crate::parser::utils::is_lower_byte;
use crate::parser::utils::is_upper_byte;
use crate::parser::utils::spec_parse_comment;
use crate::parser::utils::spec_parse_comments;
use crate::parser::utils::spec_parse_comments_full;
use crate::parser::utils::spec_line_breaks;
use crate::parser::utils::ws_end;
use crate::text::escape_chars;

broadcast use vstd::seq::group_seq_axioms, vstd::std_specs::vec::group_vec_axioms;

/// The bytes `t` do not appear at the start of `s`: either they do not fit,
/// or position `i` disagrees.
proof fn lemma_not_match(s: Seq<u8>, t: Seq<u8>, i: int)
    requires
        t.len() > s.len() || (0 <= i < t.len() && i < s.len() && s[i] != t[i]),
    ensures
        !match_at(s, 0, t),
{
    if match_at(s, 0, t) {
        assert(s.subrange(0, t.len() as int)[i] == t[i]);
    }
}

/// Grammar round trip: every primitive keyword parses to exactly its own
/// data-type variant, consuming the whole keyword.
#[verifier::rlimit(100)]
#[verifier::spinoff_prover]
pub proof fn lemma_primitive_keyword_round_trip()
    ensures
        spec_parse_type(ascii_bytes("bool"@), 0) == Some((DataTypeV::Bool, 4int)),
        spec_parse_type(ascii_bytes("float"@), 0) == Some((DataTypeV::Float, 5int)),
        spec_parse_type(ascii_bytes("bytes"@), 0) == Some((DataTypeV::Bytes, 5int)),
        spec_parse_type(ascii_bytes("int32"@), 0) == Some((DataTypeV::Int32, 5int)),
        spec_parse_type(ascii_bytes("int64"@), 0) == Some((DataTypeV::Int64, 5int)),
        spec_parse_type(ascii_bytes("string"@), 0) == Some((DataTypeV::String, 6int)),
        spec_parse_type(ascii_bytes("double"@), 0) == Some((DataTypeV::Double, 6int)),
        spec_parse_type(ascii_bytes("uint32"@), 0) == Some((DataTypeV::Uint32, 6int)),
        spec_parse_type(ascii_bytes("uint64"@), 0) == Some((DataTypeV::Uint64, 6int)),
        spec_parse_type(ascii_bytes("sint32"@), 0) == Some((DataTypeV::SInt32, 6int)),
        spec_parse_type(ascii_bytes("sint64"@), 0) == Some((DataTypeV::SInt64, 6int)),
        spec_parse_type(ascii_bytes("fixed32"@), 0) == Some((DataTypeV::Fixed32, 7int)),
        spec_parse_type(ascii_bytes("fixed64"@), 0) == Some((DataTypeV::Fixed64, 7int)),
        spec_parse_type(ascii_bytes("sfixed32"@), 0) == Some((DataTypeV::SFixed32, 8int)),
        spec_parse_type(ascii_bytes("sfixed64"@), 0) == Some((DataTypeV::SFixed64, 8int)),
        spec_parse_type(ascii_bytes("EntityId"@), 0) == Some((DataTypeV::EntityID, 8int)),
        spec_parse_type(ascii_bytes("Entity"@), 0) == Some((DataTypeV::Entity, 6int)),
{
        reveal_strlit("bool");
        reveal_strlit("float");
        reveal_strlit("bytes");
        reveal_strlit("int32");
        reveal_strlit("int64");
        reveal_strlit("string");
        reveal_strlit("double");
        reveal_strlit("uint32");
        reveal_strlit("uint64");
        reveal_strlit("sint32");
        reveal_strlit("sint64");
        reveal_strlit("fixed32");
        reveal_strlit("fixed64");
        reveal_strlit("sfixed32");
        reveal_strlit("sfixed64");
        reveal_strlit("EntityId");
        reveal_strlit("Entity");
    // bool
    let s_bool = ascii_bytes("bool"@);
    assert(s_bool.subrange(0, 4) =~= s_bool);
    assert(match_at(s_bool, 0, ascii_bytes("bool"@)));
    // float
    let s_float = ascii_bytes("float"@);
    lemma_not_match(s_float, ascii_bytes("bool"@), 0);
    assert(s_float.subrange(0, 5) =~= s_float);
    assert(match_at(s_float, 0, ascii_bytes("float"@)));
    // bytes
    let s_bytes = ascii_bytes("bytes"@);
    lemma_not_match(s_bytes, ascii_bytes("bool"@), 1);
    lemma_not_match(s_bytes, ascii_bytes("float"@), 0);
    assert(s_bytes.subrange(0, 5) =~= s_bytes);
    assert(match_at(s_bytes, 0, ascii_bytes("bytes"@)));
    // int32
    let s_int32 = ascii_bytes("int32"@);
    lemma_not_match(s_int32, ascii_bytes("bool"@), 0);
    lemma_not_match(s_int32, ascii_bytes("float"@), 0);
    lemma_not_match(s_int32, ascii_bytes("bytes"@), 0);
    assert(s_int32.subrange(0, 5) =~= s_int32);
    assert(match_at(s_int32, 0, ascii_bytes("int32"@)));
    // int64
    let s_int64 = ascii_bytes("int64"@);
    lemma_not_match(s_int64, ascii_bytes("bool"@), 0);
    lemma_not_match(s_int64, ascii_bytes("float"@), 0);
    lemma_not_match(s_int64, ascii_bytes("bytes"@), 0);
    lemma_not_match(s_int64, ascii_bytes("int32"@), 3);
    assert(s_int64.subrange(0, 5) =~= s_int64);
    assert(match_at(s_int64, 0, ascii_bytes("int64"@)));
    // string
    let s_string = ascii_bytes("string"@);
    lemma_not_match(s_string, ascii_bytes("bool"@), 0);
    lemma_not_match(s_string, ascii_bytes("float"@), 0);
    lemma_not_match(s_string, ascii_bytes("bytes"@), 0);
    lemma_not_match(s_string, ascii_bytes("int32"@), 0);
    lemma_not_match(s_string, ascii_bytes("int64"@), 0);
    assert(s_string.subrange(0, 6) =~= s_string);
    assert(match_at(s_string, 0, ascii_bytes("string"@)));
    // double
    let s_double = ascii_bytes("double"@);
    lemma_not_match(s_double, ascii_bytes("bool"@), 0);
    lemma_not_match(s_double, ascii_bytes("float"@), 0);
    lemma_not_match(s_double, ascii_bytes("bytes"@), 0);
    lemma_not_match(s_double, ascii_bytes("int32"@), 0);
    lemma_not_match(s_double, ascii_bytes("int64"@), 0);
    lemma_not_match(s_double, ascii_bytes("string"@), 0);
    assert(s_double.subrange(0, 6) =~= s_double);
    assert(match_at(s_double, 0, ascii_bytes("double"@)));
    // uint32
    let s_uint32 = ascii_bytes("uint32"@);
    lemma_not_match(s_uint32, ascii_bytes("bool"@), 0);
    lemma_not_match(s_uint32, ascii_bytes("float"@), 0);
    lemma_not_match(s_uint32, ascii_bytes("bytes"@), 0);
    lemma_not_match(s_uint32, ascii_bytes("int32"@), 0);
    lemma_not_match(s_uint32, ascii_bytes("int64"@), 0);
    lemma_not_match(s_uint32, ascii_bytes("string"@), 0);
    lemma_not_match(s_uint32, ascii_bytes("double"@), 0);
    assert(s_uint32.subrange(0, 6) =~= s_uint32);
    assert(match_at(s_uint32, 0, ascii_bytes("uint32"@)));
    // uint64
    let s_uint64 = ascii_bytes("uint64"@);
    lemma_not_match(s_uint64, ascii_bytes("bool"@), 0);
    lemma_not_match(s_uint64, ascii_bytes("float"@), 0);
    lemma_not_match(s_uint64, ascii_bytes("bytes"@), 0);
    lemma_not_match(s_uint64, ascii_bytes("int32"@), 0);
    lemma_not_match(s_uint64, ascii_bytes("int64"@), 0);
    lemma_not_match(s_uint64, ascii_bytes("string"@), 0);
    lemma_not_match(s_uint64, ascii_bytes("double"@), 0);
    lemma_not_match(s_uint64, ascii_bytes("uint32"@), 4);
    assert(s_uint64.subrange(0, 6) =~= s_uint64);
    assert(match_at(s_uint64, 0, ascii_bytes("uint64"@)));
    // sint32
    let s_sint32 = ascii_bytes("sint32"@);
    lemma_not_match(s_sint32, ascii_bytes("bool"@), 0);
    lemma_not_match(s_sint32, ascii_bytes("float"@), 0);
    lemma_not_match(s_sint32, ascii_bytes("bytes"@), 0);
    lemma_not_match(s_sint32, ascii_bytes("int32"@), 0);
    lemma_not_match(s_sint32, ascii_bytes("int64"@), 0);
    lemma_not_match(s_sint32, ascii_bytes("string"@), 1);
    lemma_not_match(s_sint32, ascii_bytes("double"@), 0);
    lemma_not_match(s_sint32, ascii_bytes("uint32"@), 0);
    lemma_not_match(s_sint32, ascii_bytes("uint64"@), 0);
    assert(s_sint32.subrange(0, 6) =~= s_sint32);
    assert(match_at(s_sint32, 0, ascii_bytes("sint32"@)));
    // sint64
    let s_sint64 = ascii_bytes("sint64"@);
    lemma_not_match(s_sint64, ascii_bytes("bool"@), 0);
    lemma_not_match(s_sint64, ascii_bytes("float"@), 0);
    lemma_not_match(s_sint64, ascii_bytes("bytes"@), 0);
    lemma_not_match(s_sint64, ascii_bytes("int32"@), 0);
    lemma_not_match(s_sint64, ascii_bytes("int64"@), 0);
    lemma_not_match(s_sint64, ascii_bytes("string"@), 1);
    lemma_not_match(s_sint64, ascii_bytes("double"@), 0);
    lemma_not_match(s_sint64, ascii_bytes("uint32"@), 0);
    lemma_not_match(s_sint64, ascii_bytes("uint64"@), 0);
    lemma_not_match(s_sint64, ascii_bytes("sint32"@), 4);
    assert(s_sint64.subrange(0, 6) =~= s_sint64);
    assert(match_at(s_sint64, 0, ascii_bytes("sint64"@)));
    // fixed32
    let s_fixed32 = ascii_bytes("fixed32"@);
    lemma_not_match(s_fixed32, ascii_bytes("bool"@), 0);
    lemma_not_match(s_fixed32, ascii_bytes("float"@), 1);
    lemma_not_match(s_fixed32, ascii_bytes("bytes"@), 0);
    lemma_not_match(s_fixed32, ascii_bytes("int32"@), 0);
    lemma_not_match(s_fixed32, ascii_bytes("int64"@), 0);
    lemma_not_match(s_fixed32, ascii_bytes("string"@), 0);
    lemma_not_match(s_fixed32, ascii_bytes("double"@), 0);
    lemma_not_match(s_fixed32, ascii_bytes("uint32"@), 0);
    lemma_not_match(s_fixed32, ascii_bytes("uint64"@), 0);
    lemma_not_match(s_fixed32, ascii_bytes("sint32"@), 0);
    lemma_not_match(s_fixed32, ascii_bytes("sint64"@), 0);
    assert(s_fixed32.subrange(0, 7) =~= s_fixed32);
    assert(match_at(s_fixed32, 0, ascii_bytes("fixed32"@)));
    // fixed64
    let s_fixed64 = ascii_bytes("fixed64"@);
    lemma_not_match(s_fixed64, ascii_bytes("bool"@), 0);
    lemma_not_match(s_fixed64, ascii_bytes("float"@), 1);
    lemma_not_match(s_fixed64, ascii_bytes("bytes"@), 0);
    lemma_not_match(s_fixed64, ascii_bytes("int32"@), 0);
    lemma_not_match(s_fixed64, ascii_bytes("int64"@), 0);
    lemma_not_match(s_fixed64, ascii_bytes("string"@), 0);
    lemma_not_match(s_fixed64, ascii_bytes("double"@), 0);
    lemma_not_match(s_fixed64, ascii_bytes("uint32"@), 0);
    lemma_not_match(s_fixed64, ascii_bytes("uint64"@), 0);
    lemma_not_match(s_fixed64, ascii_bytes("sint32"@), 0);
    lemma_not_match(s_fixed64, ascii_bytes("sint64"@), 0);
    lemma_not_match(s_fixed64, ascii_bytes("fixed32"@), 5);
    assert(s_fixed64.subrange(0, 7) =~= s_fixed64);
    assert(match_at(s_fixed64, 0, ascii_bytes("fixed64"@)));
    // sfixed32
    let s_sfixed32 = ascii_bytes("sfixed32"@);
    lemma_not_match(s_sfixed32, ascii_bytes("bool"@), 0);
    lemma_not_match(s_sfixed32, ascii_bytes("float"@), 0);
    lemma_not_match(s_sfixed32, ascii_bytes("bytes"@), 0);
    lemma_not_match(s_sfixed32, ascii_bytes("int32"@), 0);
    lemma_not_match(s_sfixed32, ascii_bytes("int64"@), 0);
    lemma_not_match(s_sfixed32, ascii_bytes("string"@), 1);
    lemma_not_match(s_sfixed32, ascii_bytes("double"@), 0);
    lemma_not_match(s_sfixed32, ascii_bytes("uint32"@), 0);
    lemma_not_match(s_sfixed32, ascii_bytes("uint64"@), 0);
    lemma_not_match(s_sfixed32, ascii_bytes("sint32"@), 1);
    lemma_not_match(s_sfixed32, ascii_bytes("sint64"@), 1);
    lemma_not_match(s_sfixed32, ascii_bytes("fixed32"@), 0);
    lemma_not_match(s_sfixed32, ascii_bytes("fixed64"@), 0);
    assert(s_sfixed32.subrange(0, 8) =~= s_sfixed32);
    assert(match_at(s_sfixed32, 0, ascii_bytes("sfixed32"@)));
    // sfixed64
    let s_sfixed64 = ascii_bytes("sfixed64"@);
    lemma_not_match(s_sfixed64, ascii_bytes("bool"@), 0);
    lemma_not_match(s_sfixed64, ascii_bytes("float"@), 0);
    lemma_not_match(s_sfixed64, ascii_bytes("bytes"@), 0);
    lemma_not_match(s_sfixed64, ascii_bytes("int32"@), 0);
    lemma_not_match(s_sfixed64, ascii_bytes("int64"@), 0);
    lemma_not_match(s_sfixed64, ascii_bytes("string"@), 1);
    lemma_not_match(s_sfixed64, ascii_bytes("double"@), 0);
    lemma_not_match(s_sfixed64, ascii_bytes("uint32"@), 0);
    lemma_not_match(s_sfixed64, ascii_bytes("uint64"@), 0);
    lemma_not_match(s_sfixed64, ascii_bytes("sint32"@), 1);
    lemma_not_match(s_sfixed64, ascii_bytes("sint64"@), 1);
    lemma_not_match(s_sfixed64, ascii_bytes("fixed32"@), 0);
    lemma_not_match(s_sfixed64, ascii_bytes("fixed64"@), 0);
    lemma_not_match(s_sfixed64, ascii_bytes("sfixed32"@), 6);
    assert(s_sfixed64.subrange(0, 8) =~= s_sfixed64);
    assert(match_at(s_sfixed64, 0, ascii_bytes("sfixed64"@)));
    // EntityId
    let s_entityid = ascii_bytes("EntityId"@);
    lemma_not_match(s_entityid, ascii_bytes("bool"@), 0);
    lemma_not_match(s_entityid, ascii_bytes("float"@), 0);
    lemma_not_match(s_entityid, ascii_bytes("bytes"@), 0);
    lemma_not_match(s_entityid, ascii_bytes("int32"@), 0);
    lemma_not_match(s_entityid, ascii_bytes("int64"@), 0);
    lemma_not_match(s_entityid, ascii_bytes("string"@), 0);
    lemma_not_match(s_entityid, ascii_bytes("double"@), 0);
    lemma_not_match(s_entityid, ascii_bytes("uint32"@), 0);
    lemma_not_match(s_entityid, ascii_bytes("uint64"@), 0);
    lemma_not_match(s_entityid, ascii_bytes("sint32"@), 0);
    lemma_not_match(s_entityid, ascii_bytes("sint64"@), 0);
    lemma_not_match(s_entityid, ascii_bytes("fixed32"@), 0);
    lemma_not_match(s_entityid, ascii_bytes("fixed64"@), 0);
    lemma_not_match(s_entityid, ascii_bytes("sfixed32"@), 0);
    lemma_not_match(s_entityid, ascii_bytes("sfixed64"@), 0);
    assert(s_entityid.subrange(0, 8) =~= s_entityid);
    assert(match_at(s_entityid, 0, ascii_bytes("EntityId"@)));
    // Entity
    let s_entity = ascii_bytes("Entity"@);
    lemma_not_match(s_entity, ascii_bytes("bool"@), 0);
    lemma_not_match(s_entity, ascii_bytes("float"@), 0);
    lemma_not_match(s_entity, ascii_bytes("bytes"@), 0);
    lemma_not_match(s_entity, ascii_bytes("int32"@), 0);
    lemma_not_match(s_entity, ascii_bytes("int64"@), 0);
    lemma_not_match(s_entity, ascii_bytes("string"@), 0);
    lemma_not_match(s_entity, ascii_bytes("double"@), 0);
    lemma_not_match(s_entity, ascii_bytes("uint32"@), 0);
    lemma_not_match(s_entity, ascii_bytes("uint64"@), 0);
    lemma_not_match(s_entity, ascii_bytes("sint32"@), 0);
    lemma_not_match(s_entity, ascii_bytes("sint64"@), 0);
    lemma_not_match(s_entity, ascii_bytes("fixed32"@), 0);
    lemma_not_match(s_entity, ascii_bytes("fixed64"@), 0);
    lemma_not_match(s_entity, ascii_bytes("sfixed32"@), 0);
    lemma_not_match(s_entity, ascii_bytes("sfixed64"@), 0);
    lemma_not_match(s_entity, ascii_bytes("EntityId"@), 0);
    assert(s_entity.subrange(0, 6) =~= s_entity);
    assert(match_at(s_entity, 0, ascii_bytes("Entity"@)));
}

/// A token in type position that starts with a lowercase letter is never
/// read as a user-defined type reference.
pub proof fn lemma_lowercase_user_type_rejected(s: Seq<u8>, i: int)
    requires
        0 <= i < s.len(),
        is_lower_byte(s[i]),
    ensures
        spec_parse_user_type(s, i) is None,
{
    assert(!is_upper_byte(s[i]));
}

/// A comment line standing contiguously before a declaration — no blank
/// line in between — is attached as that declaration's first documentation
/// entry, with its quotes escaped.
pub proof fn lemma_comment_attachment(s: Seq<u8>, i: int, text: Seq<char>, j: int)
    requires
        0 <= i <= s.len(),
        i <= ws_end(s, i) <= s.len(),
        spec_parse_comment(s, ws_end(s, i)) == Some((Some(text), j)),
        ws_end(s, i) < j <= s.len(),
        j <= ws_end(s, j) <= s.len(),
        // no blank line between this comment and what follows it
        spec_line_breaks(s, j, ws_end(s, j)) < 2,
        // and none further down the comment run either
        spec_parse_comments_full(s, ws_end(s, j)).2,
    ensures
        spec_parse_comments(s, i).0.len() >= 1,
        spec_parse_comments(s, i).0[0] == escape_chars(text),
{
}

/// A blank line breaks attachment: a comment followed by a whitespace gap
/// holding more than one line break is consumed but discarded, and only
/// whatever run follows the gap can attach.
pub proof fn lemma_blank_line_breaks_attachment(s: Seq<u8>, i: int, j: int)
    requires
        0 <= i <= s.len(),
        i <= ws_end(s, i) <= s.len(),
        spec_parse_comment(s, ws_end(s, i)) is Some,
        spec_parse_comment(s, ws_end(s, i))->Some_0.1 == j,
        ws_end(s, i) < j <= s.len(),
        j <= ws_end(s, j) <= s.len(),
        spec_line_breaks(s, j, ws_end(s, j)) >= 2,
    ensures
        spec_parse_comments(s, i).0 == spec_parse_comments(s, ws_end(s, j)).0,
{
}

/// Content that is not a comment breaks attachment: no documentation is
/// captured, and nothing is consumed.
pub proof fn lemma_unrelated_content_breaks_attachment(s: Seq<u8>, i: int)
    requires
        0 <= i <= s.len(),
        spec_parse_comment(s, ws_end(s, i)) is None,
    ensures
        spec_parse_comments(s, i) == (Seq::<Seq<char>>::empty(), i),
{
}

} // verus!
