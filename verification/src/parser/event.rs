//! Event declarations: `event <type> <name>`.

use vstd::prelude::*;

verus! {

use crate::ast::Event;
use crate::ast::EventV;
use crate::parser::data_type::ascii_bytes;
use crate::parser::data_type::match_at;
use crate::parser::data_type::match_keyword;
use crate::parser::data_type::spec_parse_type;
use crate::parser::data_type::parse_type;
use crate::parser::utils::spec_snake_case;
use crate::parser::utils::snake_case;
use crate::parser::utils::spec_ws1;
use crate::parser::utils::ws1;

broadcast use vstd::seq::group_seq_axioms, vstd::std_specs::vec::group_vec_axioms;

/// The keyword `event`, the payload type and the event's snake-case name,
/// with mandatory whitespace around the type.
pub open spec fn spec_parse_event(s: Seq<u8>, i: int) -> Option<(EventV, int)> {
    if match_at(s, i, ascii_bytes("event"@)) {
        match spec_ws1(s, i + 5) {
            Some(a) => {
                if !(0 <= a <= s.len()) {
                    None
                } else {
                    match spec_parse_type(s, a) {
                        Some((ty, b)) => {
                            if !(0 <= b <= s.len()) {
                                None
                            } else {
                                match spec_ws1(s, b) {
                                    Some(c) => {
                                        if !(0 <= c <= s.len()) {
                                            None
                                        } else {
                                            match spec_snake_case(s, c) {
                                                Some((name, d)) => Some(
                                                    (EventV { name, r_type: ty }, d),
                                                ),
                                                None => None,
                                            }
                                        }
                                    },
                                    None => None,
                                }
                            }
                        },
                        None => None,
                    }
                }
            },
            None => None,
        }
    } else {
        None
    }
}

pub fn parse_event(s: &[u8], i: usize) -> (r: Option<(Event, usize)>)
    requires
        i <= s@.len(),
    ensures
        r is Some <==> spec_parse_event(s@, i as int) is Some,
        r is Some ==> r->Some_0.0@ == spec_parse_event(s@, i as int)->Some_0.0,
        r is Some ==> r->Some_0.1 as int == spec_parse_event(s@, i as int)->Some_0.1,
        r is Some ==> i < r->Some_0.1 <= s@.len(),
{
    proof {
        reveal_strlit("event");
    }
    if match_keyword(s, i, "event") {
        match ws1(s, i + 5) {
            Some(a) => {
                match parse_type(s, a) {
                    Some((ty, b)) => {
                        match ws1(s, b) {
                            Some(c) => {
                                match snake_case(s, c) {
                                    Some((name, d)) => Some((Event { name, r_type: ty }, d)),
                                    None => None,
                                }
                            },
                            None => None,
                        }
                    },
                    None => None,
                }
            },
            None => None,
        }
    } else {
        None
    }
}

} // verus!
