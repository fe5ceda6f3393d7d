//! The package header: `package a.b.c;`.

use vstd::prelude::*;

verus! {

use crate::parser::data_type::ascii_bytes;
use crate::parser::data_type::match_at;
use crate::parser::data_type::match_keyword;
use crate::parser::utils::is_lower_alnum_byte;
use crate::parser::utils::spec_snake_case;
use crate::parser::utils::snake_case;
use crate::parser::utils::lower_alnum_b;
use crate::parser::utils::spec_ws1;
use crate::parser::utils::ws1;
use crate::parser::utils::ws_end;
use crate::parser::utils::ws0;
use crate::ast::view_strings;

broadcast use vstd::seq::group_seq_axioms, vstd::std_specs::vec::group_vec_axioms;

/// Dot-separated snake-case path segments.  A dot not followed by a segment
/// is left unconsumed and ends the list.
pub open spec fn spec_parse_package_components(s: Seq<u8>, i: int) -> Option<(Seq<Seq<char>>, int)>
    decreases s.len() - i when 0 <= i <= s.len()
{
    match spec_snake_case(s, i) {
        Some((seg, j)) => {
            if !(i < j <= s.len()) {
                None
            } else if j < s.len() && s[j] == 46 && j + 1 < s.len() && is_lower_alnum_byte(
                s[j + 1],
            ) {
                match spec_parse_package_components(s, j + 1) {
                    Some((rest, k)) => Some((seq![seg] + rest, k)),
                    None => None,
                }
            } else {
                Some((seq![seg], j))
            }
        },
        None => None,
    }
}

pub fn parse_package_components(s: &[u8], i: usize) -> (r: Option<(Vec<String>, usize)>)
    requires
        i <= s@.len(),
    ensures
        r is Some <==> spec_parse_package_components(s@, i as int) is Some,
        r is Some ==> view_strings(r->Some_0.0) == spec_parse_package_components(s@, i as int)
            ->Some_0.0,
        r is Some ==> r->Some_0.1 as int == spec_parse_package_components(s@, i as int)->Some_0.1,
        r is Some ==> i < r->Some_0.1 <= s@.len(),
    decreases s@.len() - i,
{
    match snake_case(s, i) {
        Some((seg, j)) => {
            let ghost segv = seg@;
            if j < s.len() && s[j] == 46 && j + 1 < s.len() && lower_alnum_b(s[j + 1]) {
                match parse_package_components(s, j + 1) {
                    Some((rest, k)) => {
                        let mut segs: Vec<String> = Vec::new();
                        segs.push(seg);
                        let mut rest = rest;
                        let ghost restv = view_strings(rest);
                        let n = rest.len();
                        let mut m: usize = 0;
                        while m < n
                            invariant
                                0 <= m <= n,
                                n == rest@.len(),
                                segs@.len() == 1 + m,
                                segs@[0]@ == segv,
                                view_strings(rest) == restv,
                                forall|q: int| 0 <= q < m ==> segs@[q + 1]@ == restv[q],
                            decreases n - m,
                        {
                            let piece = rest[m].clone();
                            segs.push(piece);
                            m = m + 1;
                        }
                        proof {
                            assert(view_strings(segs) =~= seq![segv]
                                + spec_parse_package_components(s@, j + 1)->Some_0.0);
                        }
                        Some((segs, k))
                    },
                    None => None,
                }
            } else {
                let mut segs: Vec<String> = Vec::new();
                segs.push(seg);
                proof {
                    assert(view_strings(segs) =~= seq![segv]);
                }
                Some((segs, j))
            }
        },
        None => None,
    }
}

/// The keyword `package`, the dotted path and the closing semicolon.
pub open spec fn spec_parse_package_name(s: Seq<u8>, i: int) -> Option<(Seq<Seq<char>>, int)> {
    if match_at(s, i, ascii_bytes("package"@)) {
        match spec_ws1(s, i + 7) {
            Some(a) => {
                if !(0 <= a <= s.len()) {
                    None
                } else {
                    match spec_parse_package_components(s, a) {
                        Some((segs, b)) => {
                            if !(0 <= b <= s.len()) {
                                None
                            } else {
                                let c = ws_end(s, b);
                                if 0 <= c && c < s.len() && s[c] == 59 {
                                    Some((segs, c + 1))
                                } else {
                                    None
                                }
                            }
                        },
                        None => None,
                    }
                }
            },
            None => None,
        }
    } else {
        None
    }
}

pub fn parse_package_name(s: &[u8], i: usize) -> (r: Option<(Vec<String>, usize)>)
    requires
        i <= s@.len(),
    ensures
        r is Some <==> spec_parse_package_name(s@, i as int) is Some,
        r is Some ==> view_strings(r->Some_0.0) == spec_parse_package_name(s@, i as int)->Some_0.0,
        r is Some ==> r->Some_0.1 as int == spec_parse_package_name(s@, i as int)->Some_0.1,
        r is Some ==> i < r->Some_0.1 <= s@.len(),
{
    proof {
        reveal_strlit("package");
    }
    if match_keyword(s, i, "package") {
        match ws1(s, i + 7) {
            Some(a) => {
                match parse_package_components(s, a) {
                    Some((segs, b)) => {
                        let c = ws0(s, b);
                        if c < s.len() && s[c] == 59 {
                            Some((segs, c + 1))
                        } else {
                            None
                        }
                    },
                    None => None,
                }
            },
            None => None,
        }
    } else {
        None
    }
}

} // verus!
