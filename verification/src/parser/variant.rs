//! Enum variant declarations: `NAME = number`, with leading documentation
//! comments.

use vstd::prelude::*;

verus! {

use crate::ast::Variant;
use crate::ast::VariantV;
use crate::ast::view_strings;
use crate::parser::utils::spec_parse_comments;
use crate::parser::utils::parse_comments;
use crate::parser::utils::spec_upper_snake_case;
use crate::parser::utils::upper_snake_case;
use crate::parser::utils::spec_parse_u32;
use crate::parser::utils::parse_u32;
use crate::parser::utils::ws_end;
use crate::parser::utils::ws0;

broadcast use vstd::seq::group_seq_axioms, vstd::std_specs::vec::group_vec_axioms;

/// An upper-snake-case name, an equals sign and an unsigned 32-bit number,
/// with any documentation comments right before the name attached.
pub open spec fn spec_parse_variant(s: Seq<u8>, i: int) -> Option<(VariantV, int)> {
    let (cs, i1) = spec_parse_comments(s, i);
    if !(0 <= i1 <= s.len()) {
        None
    } else {
        match spec_upper_snake_case(s, i1) {
            Some((name, i2)) => {
                if !(i2 <= s.len()) {
                    None
                } else {
                    let i3 = ws_end(s, i2);
                    if 0 <= i3 && i3 < s.len() && s[i3] == 61 {
                        let i4 = ws_end(s, i3 + 1);
                        if !(0 <= i4 <= s.len()) {
                            None
                        } else {
                            match spec_parse_u32(s, i4) {
                                Some((id, i5)) => Some(
                                    (VariantV { name, id, comments: cs }, i5),
                                ),
                                None => None,
                            }
                        }
                    } else {
                        None
                    }
                }
            },
            None => None,
        }
    }
}

pub fn parse_variant(s: &[u8], i: usize) -> (r: Option<(Variant, usize)>)
    requires
        i <= s@.len(),
    ensures
        r is Some <==> spec_parse_variant(s@, i as int) is Some,
        r is Some ==> r->Some_0.0@ == spec_parse_variant(s@, i as int)->Some_0.0,
        r is Some ==> r->Some_0.1 as int == spec_parse_variant(s@, i as int)->Some_0.1,
        r is Some ==> i < r->Some_0.1 <= s@.len(),
{
    let (cs, i1) = parse_comments(s, i);
    match upper_snake_case(s, i1) {
        Some((name, i2)) => {
            let i3 = ws0(s, i2);
            if i3 < s.len() && s[i3] == 61 {
                let i4 = ws0(s, i3 + 1);
                match parse_u32(s, i4) {
                    Some((id, i5)) => {
                        let v = Variant { name, id, comments: cs };
                        proof {
                            assert(view_strings(v.comments) =~= spec_parse_comments(
                                s@,
                                i as int,
                            ).0);
                        }
                        Some((v, i5))
                    },
                    None => None,
                }
            } else {
                None
            }
        },
        None => None,
    }
}

} // verus!
