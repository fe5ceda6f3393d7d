//! Small verified helpers for building strings, and the two std string
//! operations the crate takes on trust.

use vstd::prelude::*;

verus! {

use vstd::utf8::valid_utf8;
use vstd::utf8::decode_utf8;

broadcast use vstd::seq::group_seq_axioms, vstd::std_specs::vec::group_vec_axioms;

/// Relies on String::push: it appends exactly the given character.
#[verifier::external_body]
pub fn push_char(s: &mut String, c: char)
    ensures
        final(s)@ == old(s)@.push(c),
{
    s.push(c);
}

/// Relies on String::from_utf8: it succeeds exactly on valid UTF-8 input and
/// then returns those bytes decoded.
#[verifier::external_body]
pub fn string_from_utf8(v: Vec<u8>) -> (r: Option<String>)
    ensures
        r is Some <==> valid_utf8(v@),
        r is Some ==> r->Some_0@ == decode_utf8(v@),
{
    String::from_utf8(v).ok()
}

/// The characters of the byte range `i..j`, one character per byte.
pub open spec fn chars_of(s: Seq<u8>, i: int, j: int) -> Seq<char> {
    s.subrange(i, j).map_values(|b: u8| b as char)
}

/// Builds the string holding byte range `i..j`, one character per byte.
pub fn take_chars(s: &[u8], i: usize, j: usize) -> (r: String)
    requires
        i <= j <= s@.len(),
    ensures
        r@ == chars_of(s@, i as int, j as int),
{
    let mut r = String::new();
    let mut k: usize = i;
    while k < j
        invariant
            i <= k <= j <= s@.len(),
            r@ == chars_of(s@, i as int, k as int),
        decreases j - k,
    {
        let b: u8 = s[k];
        push_char(&mut r, b as char);
        k = k + 1;
        proof {
            assert(chars_of(s@, i as int, k as int) =~= chars_of(s@, i as int, k - 1).push(
                s@[k - 1] as char,
            ));
        }
    }
    r
}

/// The text with every double quote preceded by a backslash.
pub open spec fn escape_chars(s: Seq<char>) -> Seq<char>
    decreases s.len(),
{
    if s.len() == 0 {
        Seq::empty()
    } else {
        escape_chars(s.drop_last()) + (if s.last() == '"' {
            seq!['\\', '"']
        } else {
            seq![s.last()]
        })
    }
}

/// Escapes every double quote in the text with a backslash.
pub fn escape_quotes(s: &str) -> (r: String)
    ensures
        r@ == escape_chars(s@),
{
    let n = s.unicode_len();
    let mut r = String::new();
    let mut k: usize = 0;
    while k < n
        invariant
            0 <= k <= n,
            n == s@.len(),
            r@ == escape_chars(s@.take(k as int)),
        decreases n - k,
    {
        let c = s.get_char(k);
        if c == '"' {
            push_char(&mut r, '\\');
            push_char(&mut r, '"');
        } else {
            push_char(&mut r, c);
        }
        k = k + 1;
        proof {
            assert(s@.take(k as int).drop_last() =~= s@.take(k - 1));
            assert(s@.take(k as int).last() == s@[k - 1]);
        }
    }
    proof {
        assert(s@.take(n as int) =~= s@);
    }
    r
}

} // verus!
