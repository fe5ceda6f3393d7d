//! Member declarations: a data type, a snake-case field name and the stable
//! field identifier, with leading documentation comments.

use vstd::prelude::*;

verus! {

use crate::ast::Member;
use crate::ast::MemberV;
use crate::ast::view_strings;
use crate::parser::data_type::spec_parse_type;
use crate::parser::data_type::parse_type;
use crate::parser::utils::spec_parse_comments;
use crate::parser::utils::parse_comments;
use crate::parser::utils::spec_snake_case;
use crate::parser::utils::snake_case;
use crate::parser::utils::spec_parse_u32;
use crate::parser::utils::parse_u32;
use crate::parser::utils::spec_ws1;
use crate::parser::utils::ws1;
use crate::parser::utils::ws_end;
use crate::parser::utils::ws0;

broadcast use vstd::seq::group_seq_axioms, vstd::std_specs::vec::group_vec_axioms;

/// A data type, mandatory whitespace, a snake-case name, an equals sign and
/// the member's numeric identifier, with any documentation comments right
/// before the declaration attached.
pub open spec fn spec_parse_member(s: Seq<u8>, i: int) -> Option<(MemberV, int)> {
    let (cs, i1) = spec_parse_comments(s, i);
    if !(0 <= i1 <= s.len()) {
        None
    } else {
        match spec_parse_type(s, i1) {
            Some((ty, i2)) => {
                if !(0 <= i2 <= s.len()) {
                    None
                } else {
                    match spec_ws1(s, i2) {
                        Some(i3) => {
                            if !(0 <= i3 <= s.len()) {
                                None
                            } else {
                                match spec_snake_case(s, i3) {
                                    Some((name, i4)) => {
                                        if !(0 <= i4 <= s.len()) {
                                            None
                                        } else {
                                            let i5 = ws_end(s, i4);
                                            if 0 <= i5 && i5 < s.len() && s[i5] == 61 {
                                                let i6 = ws_end(s, i5 + 1);
                                                if !(0 <= i6 <= s.len()) {
                                                    None
                                                } else {
                                                    match spec_parse_u32(s, i6) {
                                                        Some((id, i7)) => Some(
                                                            (
                                                                MemberV {
                                                                    name,
                                                                    m_type: ty,
                                                                    id,
                                                                    comments: cs,
                                                                },
                                                                i7,
                                                            ),
                                                        ),
                                                        None => None,
                                                    }
                                                }
                                            } else {
                                                None
                                            }
                                        }
                                    },
                                    None => None,
                                }
                            }
                        },
                        None => None,
                    }
                }
            },
            None => None,
        }
    }
}

pub fn parse_member(s: &[u8], i: usize) -> (r: Option<(Member, usize)>)
    requires
        i <= s@.len(),
    ensures
        r is Some <==> spec_parse_member(s@, i as int) is Some,
        r is Some ==> r->Some_0.0@ == spec_parse_member(s@, i as int)->Some_0.0,
        r is Some ==> r->Some_0.1 as int == spec_parse_member(s@, i as int)->Some_0.1,
        r is Some ==> i < r->Some_0.1 <= s@.len(),
{
    let (cs, i1) = parse_comments(s, i);
    match parse_type(s, i1) {
        Some((ty, i2)) => {
            match ws1(s, i2) {
                Some(i3) => {
                    match snake_case(s, i3) {
                        Some((name, i4)) => {
                            let i5 = ws0(s, i4);
                            if i5 < s.len() && s[i5] == 61 {
                                let i6 = ws0(s, i5 + 1);
                                match parse_u32(s, i6) {
                                    Some((id, i7)) => {
                                        let m = Member { name, m_type: ty, id, comments: cs };
                                        proof {
                                            assert(view_strings(m.comments)
                                                =~= spec_parse_comments(s@, i as int).0);
                                        }
                                        Some((m, i7))
                                    },
                                    None => None,
                                }
                            } else {
                                None
                            }
                        },
                        None => None,
                    }
                },
                None => None,
            }
        },
        None => None,
    }
}

} // verus!
