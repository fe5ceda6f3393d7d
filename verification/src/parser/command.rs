//! Command declarations: `command <return type> <name>(<arguments>)`.

use vstd::prelude::*;

verus! {

use crate::ast::Command;
use crate::ast::CommandV;
use crate::ast::DataType;
use crate::ast::DataTypeV;
use crate::ast::view_data_type;
use crate::ast::view_data_types;
use crate::parser::data_type::ascii_bytes;
use crate::parser::data_type::match_at;
use crate::parser::data_type::match_keyword;
use crate::parser::data_type::spec_parse_type;
use crate::parser::data_type::parse_type;
use crate::parser::utils::spec_snake_case;
use crate::parser::utils::snake_case;
use crate::parser::utils::spec_ws1;
use crate::parser::utils::ws1;
use crate::parser::utils::ws_end;
use crate::parser::utils::ws0;

broadcast use vstd::seq::group_seq_axioms, vstd::std_specs::vec::group_vec_axioms;

/// Further arguments after the first: a comma and a type, repeatedly, each
/// surrounded by optional whitespace.  A comma not followed by a type is
/// left unconsumed and ends the list.
pub open spec fn spec_parse_args_rest(s: Seq<u8>, i: int) -> (Seq<DataTypeV>, int)
    decreases s.len() - i when 0 <= i <= s.len()
{
    let a = ws_end(s, i);
    if !(i <= a <= s.len()) {
        (Seq::empty(), i)
    } else if a < s.len() && s[a] == 44 {
        let b = ws_end(s, a + 1);
        if !(a + 1 <= b <= s.len()) {
            (Seq::empty(), i)
        } else {
            match spec_parse_type(s, b) {
                Some((t, j)) => {
                    if !(i < j <= s.len()) {
                        (Seq::empty(), i)
                    } else {
                        let (ts, k) = spec_parse_args_rest(s, j);
                        (seq![t] + ts, k)
                    }
                },
                None => (Seq::empty(), i),
            }
        }
    } else {
        (Seq::empty(), i)
    }
}

/// The argument list in parentheses: one or more types separated by commas.
/// A command carries at least one argument, so an empty list fails.
pub open spec fn spec_parse_args(s: Seq<u8>, i: int) -> Option<(Seq<DataTypeV>, int)> {
    if 0 <= i && i < s.len() && s[i] == 40 {
        let a = ws_end(s, i + 1);
        if !(i + 1 <= a <= s.len()) {
            None
        } else {
            match spec_parse_type(s, a) {
                Some((t, j)) => {
                    if !(0 <= j <= s.len()) {
                        None
                    } else {
                        let (ts, k) = spec_parse_args_rest(s, j);
                        if !(0 <= k <= s.len()) {
                            None
                        } else {
                            let e = ws_end(s, k);
                            if 0 <= e && e < s.len() && s[e] == 41 {
                                Some((seq![t] + ts, e + 1))
                            } else {
                                None
                            }
                        }
                    }
                },
                None => None,
            }
        }
    } else {
        None
    }
}

pub fn parse_args(s: &[u8], i: usize) -> (r: Option<(Vec<DataType>, usize)>)
    requires
        i <= s@.len(),
    ensures
        r is Some <==> spec_parse_args(s@, i as int) is Some,
        r is Some ==> view_data_types(r->Some_0.0) == spec_parse_args(s@, i as int)->Some_0.0,
        r is Some ==> r->Some_0.1 as int == spec_parse_args(s@, i as int)->Some_0.1,
        r is Some ==> i < r->Some_0.1 <= s@.len(),
        r is Some ==> r->Some_0.0@.len() >= 1,
{
    if i < s.len() && s[i] == 40 {
        let a = ws0(s, i + 1);
        match parse_type(s, a) {
            Some((t, j)) => {
                let mut args: Vec<DataType> = Vec::new();
                let ghost tv = view_data_type(t);
                args.push(t);
                let k = parse_args_rest(s, j, &mut args);
                proof {
                    let (ts, ks) = spec_parse_args_rest(s@, j as int);
                    assert(view_data_types(args) =~= seq![tv] + ts);
                }
                let e = ws0(s, k);
                if e < s.len() && s[e] == 41 {
                    Some((args, e + 1))
                } else {
                    None
                }
            },
            None => None,
        }
    } else {
        None
    }
}

/// Parses the remaining comma-separated arguments onto the end of `args`.
fn parse_args_rest(s: &[u8], i: usize, args: &mut Vec<DataType>) -> (r: usize)
    requires
        i <= s@.len(),
    ensures
        i <= r <= s@.len(),
        r as int == spec_parse_args_rest(s@, i as int).1,
        view_data_types(*final(args)) == view_data_types(*old(args)) + spec_parse_args_rest(
            s@,
            i as int,
        ).0,
    decreases s@.len() - i,
{
    let a = ws0(s, i);
    if a < s.len() && s[a] == 44 {
        let b = ws0(s, a + 1);
        match parse_type(s, b) {
            Some((t, j)) => {
                let ghost tv = view_data_type(t);
                let ghost before = view_data_types(*args);
                args.push(t);
                proof {
                    assert(view_data_types(*args) =~= before + seq![tv]);
                }
                let r = parse_args_rest(s, j, args);
                proof {
                    let (ts, k) = spec_parse_args_rest(s@, j as int);
                    assert(view_data_types(*args) =~= before + (seq![tv] + ts));
                }
                r
            },
            None => i,
        }
    } else {
        i
    }
}

/// The keyword `command`, the return type, the command's snake-case name and
/// its parenthesised argument list.
pub open spec fn spec_parse_command(s: Seq<u8>, i: int) -> Option<(CommandV, int)> {
    if match_at(s, i, ascii_bytes("command"@)) {
        match spec_ws1(s, i + 7) {
            Some(a) => {
                if !(0 <= a <= s.len()) {
                    None
                } else {
                    match spec_parse_type(s, a) {
                        Some((ty, b)) => {
                            if !(0 <= b <= s.len()) {
                                None
                            } else {
                                match spec_ws1(s, b) {
                                    Some(c) => {
                                        if !(0 <= c <= s.len()) {
                                            None
                                        } else {
                                            match spec_snake_case(s, c) {
                                                Some((name, d)) => {
                                                    if !(0 <= d <= s.len()) {
                                                        None
                                                    } else {
                                                        let e = ws_end(s, d);
                                                        if !(0 <= e <= s.len()) {
                                                            None
                                                        } else {
                                                            match spec_parse_args(s, e) {
                                                                Some((args, f)) => Some(
                                                                    (
                                                                        CommandV {
                                                                            name,
                                                                            r_type: ty,
                                                                            args,
                                                                        },
                                                                        f,
                                                                    ),
                                                                ),
                                                                None => None,
                                                            }
                                                        }
                                                    }
                                                },
                                                None => None,
                                            }
                                        }
                                    },
                                    None => None,
                                }
                            }
                        },
                        None => None,
                    }
                }
            },
            None => None,
        }
    } else {
        None
    }
}

pub fn parse_command(s: &[u8], i: usize) -> (r: Option<(Command, usize)>)
    requires
        i <= s@.len(),
    ensures
        r is Some <==> spec_parse_command(s@, i as int) is Some,
        r is Some ==> r->Some_0.0@ == spec_parse_command(s@, i as int)->Some_0.0,
        r is Some ==> r->Some_0.1 as int == spec_parse_command(s@, i as int)->Some_0.1,
        r is Some ==> i < r->Some_0.1 <= s@.len(),
{
    proof {
        reveal_strlit("command");
    }
    if match_keyword(s, i, "command") {
        match ws1(s, i + 7) {
            Some(a) => {
                match parse_type(s, a) {
                    Some((ty, b)) => {
                        match ws1(s, b) {
                            Some(c) => {
                                match snake_case(s, c) {
                                    Some((name, d)) => {
                                        let e = ws0(s, d);
                                        match parse_args(s, e) {
                                            Some((args, f)) => Some(
                                                (Command { name, r_type: ty, args }, f),
                                            ),
                                            None => None,
                                        }
                                    },
                                    None => None,
                                }
                            },
                            None => None,
                        }
                    },
                    None => None,
                }
            },
            None => None,
        }
    } else {
        None
    }
}

} // verus!
