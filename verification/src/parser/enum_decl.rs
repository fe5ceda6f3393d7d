//! Enum declarations: `enum Name { VARIANT = N; ... }`, with leading
//! documentation comments.

use vstd::prelude::*;

verus! {

use crate::ast::Enum;
use crate::ast::EnumV;
use crate::ast::Variant;
use crate::ast::VariantV;
use crate::ast::view_strings;
use crate::ast::view_variants;
use crate::parser::data_type::ascii_bytes;
use crate::parser::data_type::match_at;
use crate::parser::data_type::match_keyword;
use crate::parser::utils::spec_parse_comments;
use crate::parser::utils::parse_comments;
use crate::parser::utils::spec_camel_case;
use crate::parser::utils::camel_case;
use crate::parser::utils::spec_ws1;
use crate::parser::utils::ws1;
use crate::parser::utils::ws_end;
use crate::parser::utils::ws0;
use crate::parser::variant::spec_parse_variant;
use crate::parser::variant::parse_variant;

broadcast use vstd::seq::group_seq_axioms, vstd::std_specs::vec::group_vec_axioms;

/// One or more variants, each terminated by a semicolon after optional
/// whitespace.  A variant without its semicolon ends the list before it.
pub open spec fn spec_parse_variants(s: Seq<u8>, i: int) -> Option<(Seq<VariantV>, int)>
    decreases s.len() - i when 0 <= i <= s.len()
{
    match spec_parse_variant(s, i) {
        Some((v, j0)) => {
            if !(i < j0 <= s.len()) {
                None
            } else {
                let j1 = ws_end(s, j0);
                if j0 <= j1 && j1 < s.len() && s[j1] == 59 {
                    let a = ws_end(s, j1 + 1);
                    if !(j1 + 1 <= a <= s.len()) {
                        None
                    } else {
                        match spec_parse_variants(s, a) {
                            Some((vs, k)) => Some((seq![v] + vs, k)),
                            None => Some((seq![v], j1 + 1)),
                        }
                    }
                } else {
                    None
                }
            }
        },
        None => None,
    }
}

pub fn parse_variants(s: &[u8], i: usize) -> (r: Option<(Vec<Variant>, usize)>)
    requires
        i <= s@.len(),
    ensures
        r is Some <==> spec_parse_variants(s@, i as int) is Some,
        r is Some ==> view_variants(r->Some_0.0) == spec_parse_variants(s@, i as int)->Some_0.0,
        r is Some ==> r->Some_0.1 as int == spec_parse_variants(s@, i as int)->Some_0.1,
        r is Some ==> i < r->Some_0.1 <= s@.len(),
    decreases s@.len() - i,
{
    match parse_variant(s, i) {
        Some((v, j0)) => {
            let ghost vv = v@;
            let j1 = ws0(s, j0);
            if j1 < s.len() && s[j1] == 59 {
                let a = ws0(s, j1 + 1);
                match parse_variants(s, a) {
                    Some((vs, k)) => {
                        let mut out = vs;
                        out.insert(0, v);
                        proof {
                            assert(view_variants(out) =~= seq![vv] + spec_parse_variants(
                                s@,
                                a as int,
                            )->Some_0.0);
                        }
                        Some((out, k))
                    },
                    None => {
                        let mut out: Vec<Variant> = Vec::new();
                        out.push(v);
                        proof {
                            assert(view_variants(out) =~= seq![vv]);
                        }
                        Some((out, j1 + 1))
                    },
                }
            } else {
                None
            }
        },
        None => None,
    }
}

/// Leading documentation comments, the keyword `enum`, the camel-case name
/// with mandatory whitespace around it, and the variant list in braces.
pub open spec fn spec_parse_enum(s: Seq<u8>, i: int) -> Option<(EnumV, int)> {
    let (cs, i1) = spec_parse_comments(s, i);
    if !(0 <= i1 <= s.len()) {
        None
    } else if match_at(s, i1, ascii_bytes("enum"@)) {
        match spec_ws1(s, i1 + 4) {
            Some(a) => {
                if !(0 <= a <= s.len()) {
                    None
                } else {
                    match spec_camel_case(s, a) {
                        Some((name, b)) => {
                            if !(0 <= b <= s.len()) {
                                None
                            } else {
                                match spec_ws1(s, b) {
                                    Some(c) => {
                                        if 0 <= c && c < s.len() && s[c] == 123 {
                                            let d = ws_end(s, c + 1);
                                            if !(c + 1 <= d <= s.len()) {
                                                None
                                            } else {
                                                match spec_parse_variants(s, d) {
                                                    Some((vs, e)) => {
                                                        if !(0 <= e <= s.len()) {
                                                            None
                                                        } else {
                                                            let f = ws_end(s, e);
                                                            if 0 <= f && f < s.len() && s[f]
                                                                == 125 {
                                                                Some(
                                                                    (
                                                                        EnumV {
                                                                            name,
                                                                            variants: vs,
                                                                            comments: cs,
                                                                        },
                                                                        f + 1,
                                                                    ),
                                                                )
                                                            } else {
                                                                None
                                                            }
                                                        }
                                                    },
                                                    None => None,
                                                }
                                            }
                                        } else {
                                            None
                                        }
                                    },
                                    None => None,
                                }
                            }
                        },
                        None => None,
                    }
                }
            },
            None => None,
        }
    } else {
        None
    }
}

pub fn parse_enum(s: &[u8], i: usize) -> (r: Option<(Enum, usize)>)
    requires
        i <= s@.len(),
    ensures
        r is Some <==> spec_parse_enum(s@, i as int) is Some,
        r is Some ==> r->Some_0.0@ == spec_parse_enum(s@, i as int)->Some_0.0,
        r is Some ==> r->Some_0.1 as int == spec_parse_enum(s@, i as int)->Some_0.1,
        r is Some ==> i < r->Some_0.1 <= s@.len(),
{
    proof {
        reveal_strlit("enum");
    }
    let (cs, i1) = parse_comments(s, i);
    if match_keyword(s, i1, "enum") {
        match ws1(s, i1 + 4) {
            Some(a) => {
                match camel_case(s, a) {
                    Some((name, b)) => {
                        match ws1(s, b) {
                            Some(c) => {
                                if c < s.len() && s[c] == 123 {
                                    let d = ws0(s, c + 1);
                                    match parse_variants(s, d) {
                                        Some((vs, e)) => {
                                            let f = ws0(s, e);
                                            if f < s.len() && s[f] == 125 {
                                                let en = Enum {
                                                    name,
                                                    variants: vs,
                                                    comments: cs,
                                                };
                                                proof {
                                                    assert(view_strings(en.comments)
                                                        =~= spec_parse_comments(s@, i as int).0);
                                                }
                                                Some((en, f + 1))
                                            } else {
                                                None
                                            }
                                        },
                                        None => None,
                                    }
                                } else {
                                    None
                                }
                            },
                            None => None,
                        }
                    },
                    None => None,
                }
            },
            None => None,
        }
    } else {
        None
    }
}

} // verus!
