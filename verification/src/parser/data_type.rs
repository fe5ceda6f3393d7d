//! The data-type grammar: primitive keywords, user-defined names, and the
//! three generic containers.

use vstd::prelude::*;

verus! {

use crate::ast::DataType;
use crate::ast::DataTypeV;
use crate::ast::UserDefinedType;
use crate::ast::UserDefinedTypeV;
use crate::parser::utils::is_upper_byte;
use crate::parser::utils::alpha_end;
use crate::parser::utils::lemma_alpha_end;
use crate::parser::utils::ws_end;
use crate::parser::utils::lemma_ws_end;
use crate::parser::utils::ws0;
use crate::parser::utils::scan_alpha;
use crate::text::chars_of;
use crate::text::take_chars;

broadcast use vstd::seq::group_seq_axioms, vstd::std_specs::vec::group_vec_axioms;

// ---------------------------------------------------------------------------
// Keyword matching
// ---------------------------------------------------------------------------

/// The bytes of an ASCII text, one byte per character.
pub open spec fn ascii_bytes(cs: Seq<char>) -> Seq<u8> {
    cs.map_values(|c: char| c as u8)
}

/// The bytes `t` appear in `s` at position `i`.
pub open spec fn match_at(s: Seq<u8>, i: int, t: Seq<u8>) -> bool {
    0 <= i && i + t.len() <= s.len() && s.subrange(i, i + t.len()) == t
}

/// Tests whether the keyword's bytes appear at position `i`.
pub fn match_keyword(s: &[u8], i: usize, kw: &str) -> (r: bool)
    requires
        i <= s@.len(),
        kw.is_ascii(),
    ensures
        r == match_at(s@, i as int, ascii_bytes(kw@)),
        r ==> i + kw@.len() <= s.len(),
{
    broadcast use vstd::string::is_ascii_spec_bytes;

    let kb = kw.as_bytes();
    let n = kb.len();
    let slen = s.len();
    proof {
        assert(kb@ =~= ascii_bytes(kw@));
    }
    if n > slen - i {
        return false;
    }
    let mut k: usize = 0;
    loop
        invariant_except_break
            0 <= k <= n,
            i + n <= slen,
            slen == s@.len(),
            n == kb@.len(),
            kb@ == ascii_bytes(kw@),
            forall|m: int| 0 <= m < k ==> s@[i + m] == kb@[m],
        ensures
            k <= n,
            i + n <= slen,
            slen == s@.len(),
            n == kb@.len(),
            kb@ == ascii_bytes(kw@),
            k == n ==> forall|m: int| 0 <= m < n ==> s@[i + m] == kb@[m],
            k < n ==> !match_at(s@, i as int, ascii_bytes(kw@)),
        decreases n - k,
    {
        if k >= n {
            break;
        }
        if s[i + k] != kb[k] {
            proof {
                if match_at(s@, i as int, ascii_bytes(kw@)) {
                    assert(s@.subrange(i as int, i + kb@.len())[k as int] == s@[i + k]);
                }
            }
            break;
        }
        k = k + 1;
    }
    if k == n {
        proof {
            assert(s@.subrange(i as int, i + n as int) =~= kb@);
        }
        true
    } else {
        false
    }
}

// ---------------------------------------------------------------------------
// Primitive keywords
// ---------------------------------------------------------------------------

/// The primitive keyword table, tried in order; each keyword is matched as a
/// prefix at position `i`.
pub open spec fn spec_parse_primitive(s: Seq<u8>, i: int) -> Option<(DataTypeV, int)> {
    if match_at(s, i, ascii_bytes("bool"@)) {
        Some((DataTypeV::Bool, i + 4))
    } else if match_at(s, i, ascii_bytes("float"@)) {
        Some((DataTypeV::Float, i + 5))
    } else if match_at(s, i, ascii_bytes("bytes"@)) {
        Some((DataTypeV::Bytes, i + 5))
    } else if match_at(s, i, ascii_bytes("int32"@)) {
        Some((DataTypeV::Int32, i + 5))
    } else if match_at(s, i, ascii_bytes("int64"@)) {
        Some((DataTypeV::Int64, i + 5))
    } else if match_at(s, i, ascii_bytes("string"@)) {
        Some((DataTypeV::String, i + 6))
    } else if match_at(s, i, ascii_bytes("double"@)) {
        Some((DataTypeV::Double, i + 6))
    } else if match_at(s, i, ascii_bytes("uint32"@)) {
        Some((DataTypeV::Uint32, i + 6))
    } else if match_at(s, i, ascii_bytes("uint64"@)) {
        Some((DataTypeV::Uint64, i + 6))
    } else if match_at(s, i, ascii_bytes("sint32"@)) {
        Some((DataTypeV::SInt32, i + 6))
    } else if match_at(s, i, ascii_bytes("sint64"@)) {
        Some((DataTypeV::SInt64, i + 6))
    } else if match_at(s, i, ascii_bytes("fixed32"@)) {
        Some((DataTypeV::Fixed32, i + 7))
    } else if match_at(s, i, ascii_bytes("fixed64"@)) {
        Some((DataTypeV::Fixed64, i + 7))
    } else if match_at(s, i, ascii_bytes("sfixed32"@)) {
        Some((DataTypeV::SFixed32, i + 8))
    } else if match_at(s, i, ascii_bytes("sfixed64"@)) {
        Some((DataTypeV::SFixed64, i + 8))
    } else if match_at(s, i, ascii_bytes("EntityId"@)) {
        Some((DataTypeV::EntityID, i + 8))
    } else if match_at(s, i, ascii_bytes("Entity"@)) {
        Some((DataTypeV::Entity, i + 6))
    } else {
        None
    }
}

/// Parses one primitive type keyword.
pub fn parse_primitive(s: &[u8], i: usize) -> (r: Option<(DataType, usize)>)
    requires
        i <= s@.len(),
    ensures
        r is Some <==> spec_parse_primitive(s@, i as int) is Some,
        r is Some ==> r->Some_0.0@ == spec_parse_primitive(s@, i as int)->Some_0.0,
        r is Some ==> r->Some_0.1 as int == spec_parse_primitive(s@, i as int)->Some_0.1,
        r is Some ==> i < r->Some_0.1 <= s@.len(),
{
    proof {
        reveal_strlit("bool");
        reveal_strlit("float");
        reveal_strlit("bytes");
        reveal_strlit("int32");
        reveal_strlit("int64");
        reveal_strlit("string");
        reveal_strlit("double");
        reveal_strlit("uint32");
        reveal_strlit("uint64");
        reveal_strlit("sint32");
        reveal_strlit("sint64");
        reveal_strlit("fixed32");
        reveal_strlit("fixed64");
        reveal_strlit("sfixed32");
        reveal_strlit("sfixed64");
        reveal_strlit("EntityId");
        reveal_strlit("Entity");
    }
    if match_keyword(s, i, "bool") {
        Some((DataType::Bool, i + 4))
    } else if match_keyword(s, i, "float") {
        Some((DataType::Float, i + 5))
    } else if match_keyword(s, i, "bytes") {
        Some((DataType::Bytes, i + 5))
    } else if match_keyword(s, i, "int32") {
        Some((DataType::Int32, i + 5))
    } else if match_keyword(s, i, "int64") {
        Some((DataType::Int64, i + 5))
    } else if match_keyword(s, i, "string") {
        Some((DataType::String, i + 6))
    } else if match_keyword(s, i, "double") {
        Some((DataType::Double, i + 6))
    } else if match_keyword(s, i, "uint32") {
        Some((DataType::Uint32, i + 6))
    } else if match_keyword(s, i, "uint64") {
        Some((DataType::Uint64, i + 6))
    } else if match_keyword(s, i, "sint32") {
        Some((DataType::SInt32, i + 6))
    } else if match_keyword(s, i, "sint64") {
        Some((DataType::SInt64, i + 6))
    } else if match_keyword(s, i, "fixed32") {
        Some((DataType::Fixed32, i + 7))
    } else if match_keyword(s, i, "fixed64") {
        Some((DataType::Fixed64, i + 7))
    } else if match_keyword(s, i, "sfixed32") {
        Some((DataType::SFixed32, i + 8))
    } else if match_keyword(s, i, "sfixed64") {
        Some((DataType::SFixed64, i + 8))
    } else if match_keyword(s, i, "EntityId") {
        Some((DataType::EntityID, i + 8))
    } else if match_keyword(s, i, "Entity") {
        Some((DataType::Entity, i + 6))
    } else {
        None
    }
}

// ---------------------------------------------------------------------------
// User-defined names and the type grammar
// ---------------------------------------------------------------------------

/// A user-defined type name: an uppercase letter followed by letters.
pub open spec fn spec_parse_user_type(s: Seq<u8>, i: int) -> Option<(Seq<char>, int)> {
    if i < s.len() && is_upper_byte(s[i]) {
        Some((chars_of(s, i, alpha_end(s, i + 1)), alpha_end(s, i + 1)))
    } else {
        None
    }
}

/// Parses a user-defined type name.
pub fn parse_user_type(s: &[u8], i: usize) -> (r: Option<(String, usize)>)
    requires
        i <= s@.len(),
    ensures
        r is Some <==> spec_parse_user_type(s@, i as int) is Some,
        r is Some ==> r->Some_0.0@ == spec_parse_user_type(s@, i as int)->Some_0.0,
        r is Some ==> r->Some_0.1 as int == spec_parse_user_type(s@, i as int)->Some_0.1,
        r is Some ==> i < r->Some_0.1 <= s@.len(),
{
    if i < s.len() {
        let b: u8 = s[i];
        if 65 <= b && b <= 90 {
            proof {
                lemma_alpha_end(s@, i + 1);
            }
            let j = scan_alpha(s, i + 1);
            return Some((take_chars(s, i, j), j));
        }
    }
    None
}

/// A type without the generic forms: a primitive keyword, or a user-defined
/// name read as an unresolved reference.
pub open spec fn spec_parse_type_without_generics(s: Seq<u8>, i: int) -> Option<(DataTypeV, int)> {
    match spec_parse_primitive(s, i) {
        Some(r) => Some(r),
        None => match spec_parse_user_type(s, i) {
            Some((name, j)) => Some(
                (DataTypeV::UserDefined(UserDefinedTypeV::Unresolved(name)), j),
            ),
            None => None,
        },
    }
}

pub fn parse_type_without_generics(s: &[u8], i: usize) -> (r: Option<(DataType, usize)>)
    requires
        i <= s@.len(),
    ensures
        r is Some <==> spec_parse_type_without_generics(s@, i as int) is Some,
        r is Some ==> r->Some_0.0@ == spec_parse_type_without_generics(s@, i as int)->Some_0.0,
        r is Some ==> r->Some_0.1 as int == spec_parse_type_without_generics(s@, i as int)
            ->Some_0.1,
        r is Some ==> i < r->Some_0.1 <= s@.len(),
{
    match parse_primitive(s, i) {
        Some(r) => Some(r),
        None => match parse_user_type(s, i) {
            Some((name, j)) => Some(
                (DataType::UserDefined(UserDefinedType::Unresolved(name)), j),
            ),
            None => None,
        },
    }
}

/// One generic argument: the inner type in angle brackets, surrounded by
/// optional whitespace.
pub open spec fn spec_parse_one_generic(s: Seq<u8>, i: int) -> Option<(DataTypeV, int)> {
    if 0 <= i && i < s.len() && s[i] == 60 {
        let a = ws_end(s, i + 1);
        if !(i + 1 <= a <= s.len()) {
            None
        } else {
            match spec_parse_type_without_generics(s, a) {
                Some((t, b)) => {
                    if !(a <= b <= s.len()) {
                        None
                    } else {
                        let c = ws_end(s, b);
                        if c < s.len() && s[c] == 62 {
                            Some((t, c + 1))
                        } else {
                            None
                        }
                    }
                },
                None => None,
            }
        }
    } else {
        None
    }
}

pub fn parse_one_generic(s: &[u8], i: usize) -> (r: Option<(DataType, usize)>)
    requires
        i <= s@.len(),
    ensures
        r is Some <==> spec_parse_one_generic(s@, i as int) is Some,
        r is Some ==> r->Some_0.0@ == spec_parse_one_generic(s@, i as int)->Some_0.0,
        r is Some ==> r->Some_0.1 as int == spec_parse_one_generic(s@, i as int)->Some_0.1,
        r is Some ==> i < r->Some_0.1 <= s@.len(),
{
    if i < s.len() && s[i] == 60 {
        proof {
            lemma_ws_end(s@, i + 1);
        }
        let a = ws0(s, i + 1);
        match parse_type_without_generics(s, a) {
            Some((t, b)) => {
                proof {
                    lemma_ws_end(s@, b as int);
                }
                let c = ws0(s, b);
                if c < s.len() && s[c] == 62 {
                    Some((t, c + 1))
                } else {
                    None
                }
            },
            None => None,
        }
    } else {
        None
    }
}

/// Two generic arguments: the inner types in angle brackets, separated by a
/// comma, each surrounded by optional whitespace.
pub open spec fn spec_parse_two_generics(s: Seq<u8>, i: int) -> Option<((DataTypeV, DataTypeV), int)> {
    if 0 <= i && i < s.len() && s[i] == 60 {
        let a = ws_end(s, i + 1);
        if !(i + 1 <= a <= s.len()) {
            None
        } else {
            match spec_parse_type_without_generics(s, a) {
                Some((t1, b)) => {
                    if !(a <= b <= s.len()) {
                        None
                    } else {
                        let c = ws_end(s, b);
                        if c < s.len() && s[c] == 44 {
                            let d = ws_end(s, c + 1);
                            if !(c + 1 <= d <= s.len()) {
                                None
                            } else {
                                match spec_parse_type_without_generics(s, d) {
                                    Some((t2, e)) => {
                                        if !(d <= e <= s.len()) {
                                            None
                                        } else {
                                            let f = ws_end(s, e);
                                            if f < s.len() && s[f] == 62 {
                                                Some(((t1, t2), f + 1))
                                            } else {
                                                None
                                            }
                                        }
                                    },
                                    None => None,
                                }
                            }
                        } else {
                            None
                        }
                    }
                },
                None => None,
            }
        }
    } else {
        None
    }
}

pub fn parse_two_generics(s: &[u8], i: usize) -> (r: Option<((DataType, DataType), usize)>)
    requires
        i <= s@.len(),
    ensures
        r is Some <==> spec_parse_two_generics(s@, i as int) is Some,
        r is Some ==> r->Some_0.0.0@ == spec_parse_two_generics(s@, i as int)->Some_0.0.0,
        r is Some ==> r->Some_0.0.1@ == spec_parse_two_generics(s@, i as int)->Some_0.0.1,
        r is Some ==> r->Some_0.1 as int == spec_parse_two_generics(s@, i as int)->Some_0.1,
        r is Some ==> i < r->Some_0.1 <= s@.len(),
{
    if i < s.len() && s[i] == 60 {
        proof {
            lemma_ws_end(s@, i + 1);
        }
        let a = ws0(s, i + 1);
        match parse_type_without_generics(s, a) {
            Some((t1, b)) => {
                proof {
                    lemma_ws_end(s@, b as int);
                }
                let c = ws0(s, b);
                if c < s.len() && s[c] == 44 {
                    proof {
                        lemma_ws_end(s@, c + 1);
                    }
                    let d = ws0(s, c + 1);
                    match parse_type_without_generics(s, d) {
                        Some((t2, e)) => {
                            proof {
                                lemma_ws_end(s@, e as int);
                            }
                            let f = ws0(s, e);
                            if f < s.len() && s[f] == 62 {
                                Some(((t1, t2), f + 1))
                            } else {
                                None
                            }
                        },
                        None => None,
                    }
                } else {
                    None
                }
            },
            None => None,
        }
    } else {
        None
    }
}

/// The three generic container forms.
pub open spec fn spec_parse_generic_type(s: Seq<u8>, i: int) -> Option<(DataTypeV, int)> {
    if match_at(s, i, ascii_bytes("map"@)) {
        match spec_parse_two_generics(s, i + 3) {
            Some(((k, v), j)) => Some((DataTypeV::Mapping(Box::new(k), Box::new(v)), j)),
            None => None,
        }
    } else if match_at(s, i, ascii_bytes("list"@)) {
        match spec_parse_one_generic(s, i + 4) {
            Some((t, j)) => Some((DataTypeV::List(Box::new(t)), j)),
            None => None,
        }
    } else if match_at(s, i, ascii_bytes("option"@)) {
        match spec_parse_one_generic(s, i + 6) {
            Some((t, j)) => Some((DataTypeV::Option(Box::new(t)), j)),
            None => None,
        }
    } else {
        None
    }
}

pub fn parse_generic_type(s: &[u8], i: usize) -> (r: Option<(DataType, usize)>)
    requires
        i <= s@.len(),
    ensures
        r is Some <==> spec_parse_generic_type(s@, i as int) is Some,
        r is Some ==> r->Some_0.0@ == spec_parse_generic_type(s@, i as int)->Some_0.0,
        r is Some ==> r->Some_0.1 as int == spec_parse_generic_type(s@, i as int)->Some_0.1,
        r is Some ==> i < r->Some_0.1 <= s@.len(),
{
    proof {
        reveal_strlit("map");
        reveal_strlit("list");
        reveal_strlit("option");
    }
    if match_keyword(s, i, "map") {
        match parse_two_generics(s, i + 3) {
            Some(((k, v), j)) => Some((DataType::Mapping(Box::new(k), Box::new(v)), j)),
            None => None,
        }
    } else if match_keyword(s, i, "list") {
        match parse_one_generic(s, i + 4) {
            Some((t, j)) => Some((DataType::List(Box::new(t)), j)),
            None => None,
        }
    } else if match_keyword(s, i, "option") {
        match parse_one_generic(s, i + 6) {
            Some((t, j)) => Some((DataType::Option(Box::new(t)), j)),
            None => None,
        }
    } else {
        None
    }
}

/// The full data-type grammar: a primitive keyword or user-defined name, and
/// otherwise one of the generic container forms.
pub open spec fn spec_parse_type(s: Seq<u8>, i: int) -> Option<(DataTypeV, int)> {
    match spec_parse_type_without_generics(s, i) {
        Some(r) => Some(r),
        None => spec_parse_generic_type(s, i),
    }
}

pub fn parse_type(s: &[u8], i: usize) -> (r: Option<(DataType, usize)>)
    requires
        i <= s@.len(),
    ensures
        r is Some <==> spec_parse_type(s@, i as int) is Some,
        r is Some ==> r->Some_0.0@ == spec_parse_type(s@, i as int)->Some_0.0,
        r is Some ==> r->Some_0.1 as int == spec_parse_type(s@, i as int)->Some_0.1,
        r is Some ==> i < r->Some_0.1 <= s@.len(),
{
    match parse_type_without_generics(s, i) {
        Some(r) => Some(r),
        None => parse_generic_type(s, i),
    }
}

} // verus!
