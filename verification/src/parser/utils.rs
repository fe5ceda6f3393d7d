//! Lexical building blocks: byte classes, whitespace, identifier tokens,
//! numbers, and documentation comments.

use vstd::prelude::*;

verus! {

use vstd::utf8::valid_utf8;
use vstd::utf8::decode_utf8;
use crate::text::chars_of;
use crate::text::escape_chars;
use crate::text::escape_quotes;
use crate::text::push_char;
use crate::text::string_from_utf8;
use crate::text::take_chars;

broadcast use vstd::seq::group_seq_axioms, vstd::std_specs::vec::group_vec_axioms;

// ---------------------------------------------------------------------------
// Byte classes
// ---------------------------------------------------------------------------

/// Space, tab, line feed or carriage return.
pub open spec fn is_ws_byte(b: u8) -> bool {
    b == 32 || b == 9 || b == 10 || b == 13
}

pub open spec fn is_upper_byte(b: u8) -> bool {
    65 <= b <= 90
}

pub open spec fn is_lower_byte(b: u8) -> bool {
    97 <= b <= 122
}

pub open spec fn is_digit_byte(b: u8) -> bool {
    48 <= b <= 57
}

pub open spec fn is_lower_alnum_byte(b: u8) -> bool {
    is_lower_byte(b) || is_digit_byte(b)
}

pub open spec fn is_alnum_byte(b: u8) -> bool {
    is_upper_byte(b) || is_lower_byte(b) || is_digit_byte(b)
}

pub open spec fn is_alpha_byte(b: u8) -> bool {
    is_upper_byte(b) || is_lower_byte(b)
}

pub open spec fn is_crlf_byte(b: u8) -> bool {
    b == 10 || b == 13
}

// ---------------------------------------------------------------------------
// Scanners: the end of the run of a byte class starting at `i`
// ---------------------------------------------------------------------------

pub open spec fn ws_end(s: Seq<u8>, i: int) -> int
    decreases s.len() - i when 0 <= i <= s.len()
{
    if i < s.len() && is_ws_byte(s[i]) {
        ws_end(s, i + 1)
    } else {
        i
    }
}

pub open spec fn lower_alnum_end(s: Seq<u8>, i: int) -> int
    decreases s.len() - i when 0 <= i <= s.len()
{
    if i < s.len() && is_lower_alnum_byte(s[i]) {
        lower_alnum_end(s, i + 1)
    } else {
        i
    }
}

pub open spec fn upper_end(s: Seq<u8>, i: int) -> int
    decreases s.len() - i when 0 <= i <= s.len()
{
    if i < s.len() && is_upper_byte(s[i]) {
        upper_end(s, i + 1)
    } else {
        i
    }
}

pub open spec fn alpha_end(s: Seq<u8>, i: int) -> int
    decreases s.len() - i when 0 <= i <= s.len()
{
    if i < s.len() && is_alpha_byte(s[i]) {
        alpha_end(s, i + 1)
    } else {
        i
    }
}

pub open spec fn alnum_end(s: Seq<u8>, i: int) -> int
    decreases s.len() - i when 0 <= i <= s.len()
{
    if i < s.len() && is_alnum_byte(s[i]) {
        alnum_end(s, i + 1)
    } else {
        i
    }
}

pub open spec fn digit_end(s: Seq<u8>, i: int) -> int
    decreases s.len() - i when 0 <= i <= s.len()
{
    if i < s.len() && is_digit_byte(s[i]) {
        digit_end(s, i + 1)
    } else {
        i
    }
}

/// The position of the next line break (or the end of input).
pub open spec fn line_end(s: Seq<u8>, i: int) -> int
    decreases s.len() - i when 0 <= i <= s.len()
{
    if i < s.len() && !is_crlf_byte(s[i]) {
        line_end(s, i + 1)
    } else {
        i
    }
}

pub proof fn lemma_ws_end(s: Seq<u8>, i: int)
    requires
        0 <= i <= s.len(),
    ensures
        i <= ws_end(s, i) <= s.len(),
        forall|k: int| i <= k < ws_end(s, i) ==> is_ws_byte(#[trigger] s[k]),
        ws_end(s, i) < s.len() ==> !is_ws_byte(s[ws_end(s, i)]),
    decreases s.len() - i,
{
    if i < s.len() && is_ws_byte(s[i]) {
        lemma_ws_end(s, i + 1);
    }
}

pub proof fn lemma_lower_alnum_end(s: Seq<u8>, i: int)
    requires
        0 <= i <= s.len(),
    ensures
        i <= lower_alnum_end(s, i) <= s.len(),
        forall|k: int| i <= k < lower_alnum_end(s, i) ==> is_lower_alnum_byte(#[trigger] s[k]),
        lower_alnum_end(s, i) < s.len() ==> !is_lower_alnum_byte(s[lower_alnum_end(s, i)]),
    decreases s.len() - i,
{
    if i < s.len() && is_lower_alnum_byte(s[i]) {
        lemma_lower_alnum_end(s, i + 1);
    }
}

pub proof fn lemma_upper_end(s: Seq<u8>, i: int)
    requires
        0 <= i <= s.len(),
    ensures
        i <= upper_end(s, i) <= s.len(),
        forall|k: int| i <= k < upper_end(s, i) ==> is_upper_byte(#[trigger] s[k]),
        upper_end(s, i) < s.len() ==> !is_upper_byte(s[upper_end(s, i)]),
    decreases s.len() - i,
{
    if i < s.len() && is_upper_byte(s[i]) {
        lemma_upper_end(s, i + 1);
    }
}

pub proof fn lemma_alpha_end(s: Seq<u8>, i: int)
    requires
        0 <= i <= s.len(),
    ensures
        i <= alpha_end(s, i) <= s.len(),
    decreases s.len() - i,
{
    if i < s.len() && is_alpha_byte(s[i]) {
        lemma_alpha_end(s, i + 1);
    }
}

pub proof fn lemma_alnum_end(s: Seq<u8>, i: int)
    requires
        0 <= i <= s.len(),
    ensures
        i <= alnum_end(s, i) <= s.len(),
    decreases s.len() - i,
{
    if i < s.len() && is_alnum_byte(s[i]) {
        lemma_alnum_end(s, i + 1);
    }
}

pub proof fn lemma_digit_end(s: Seq<u8>, i: int)
    requires
        0 <= i <= s.len(),
    ensures
        i <= digit_end(s, i) <= s.len(),
        forall|k: int| i <= k < digit_end(s, i) ==> is_digit_byte(#[trigger] s[k]),
        digit_end(s, i) < s.len() ==> !is_digit_byte(s[digit_end(s, i)]),
    decreases s.len() - i,
{
    if i < s.len() && is_digit_byte(s[i]) {
        lemma_digit_end(s, i + 1);
    }
}

pub proof fn lemma_line_end(s: Seq<u8>, i: int)
    requires
        0 <= i <= s.len(),
    ensures
        i <= line_end(s, i) <= s.len(),
        forall|k: int| i <= k < line_end(s, i) ==> !is_crlf_byte(#[trigger] s[k]),
        line_end(s, i) < s.len() ==> is_crlf_byte(s[line_end(s, i)]),
    decreases s.len() - i,
{
    if i < s.len() && !is_crlf_byte(s[i]) {
        lemma_line_end(s, i + 1);
    }
}

// ---------------------------------------------------------------------------
// Executable scanners
// ---------------------------------------------------------------------------

fn ws_b(b: u8) -> (r: bool)
    ensures
        r == is_ws_byte(b),
{
    b == 32 || b == 9 || b == 10 || b == 13
}

fn upper_b(b: u8) -> (r: bool)
    ensures
        r == is_upper_byte(b),
{
    65 <= b && b <= 90
}

fn lower_b(b: u8) -> (r: bool)
    ensures
        r == is_lower_byte(b),
{
    97 <= b && b <= 122
}

fn digit_b(b: u8) -> (r: bool)
    ensures
        r == is_digit_byte(b),
{
    48 <= b && b <= 57
}

/// Tests whether a byte is a lowercase letter or digit.
pub(crate) fn lower_alnum_b(b: u8) -> (r: bool)
    ensures
        r == is_lower_alnum_byte(b),
{
    lower_b(b) || digit_b(b)
}

fn alnum_b(b: u8) -> (r: bool)
    ensures
        r == is_alnum_byte(b),
{
    upper_b(b) || lower_b(b) || digit_b(b)
}

fn alpha_b(b: u8) -> (r: bool)
    ensures
        r == is_alpha_byte(b),
{
    upper_b(b) || lower_b(b)
}

fn crlf_b(b: u8) -> (r: bool)
    ensures
        r == is_crlf_byte(b),
{
    b == 10 || b == 13
}

/// Skips optional whitespace.
pub fn ws0(s: &[u8], i: usize) -> (r: usize)
    requires
        i <= s@.len(),
    ensures
        r == ws_end(s@, i as int),
        i <= r <= s@.len(),
{
    proof {
        lemma_ws_end(s@, i as int);
    }
    let mut k: usize = i;
    loop
        invariant_except_break
            i <= k <= s@.len(),
            ws_end(s@, i as int) == ws_end(s@, k as int),
        ensures
            i <= k <= s@.len(),
            k == ws_end(s@, i as int),
        decreases s@.len() - k,
    {
        if k >= s.len() {
            break;
        }
        if !ws_b(s[k]) {
            break;
        }
        k = k + 1;
    }
    k
}

/// Skips mandatory whitespace: at least one whitespace byte must be present.
pub fn ws1(s: &[u8], i: usize) -> (r: Option<usize>)
    requires
        i <= s@.len(),
    ensures
        r is Some <==> spec_ws1(s@, i as int) is Some,
        r is Some ==> r->Some_0 as int == spec_ws1(s@, i as int)->Some_0,
        r is Some ==> i < r->Some_0 <= s@.len(),
{
    if i < s.len() && ws_b(s[i]) {
        proof {
            lemma_ws_end(s@, i as int);
        }
        Some(ws0(s, i))
    } else {
        None
    }
}

pub open spec fn spec_ws1(s: Seq<u8>, i: int) -> Option<int> {
    if i < s.len() && is_ws_byte(s[i]) {
        Some(ws_end(s, i))
    } else {
        None
    }
}

pub(crate) fn scan_lower_alnum(s: &[u8], i: usize) -> (r: usize)
    requires
        i <= s@.len(),
    ensures
        r == lower_alnum_end(s@, i as int),
        i <= r <= s@.len(),
{
    proof {
        lemma_lower_alnum_end(s@, i as int);
    }
    let mut k: usize = i;
    loop
        invariant_except_break
            i <= k <= s@.len(),
            lower_alnum_end(s@, i as int) == lower_alnum_end(s@, k as int),
        ensures
            i <= k <= s@.len(),
            k == lower_alnum_end(s@, i as int),
        decreases s@.len() - k,
    {
        if k >= s.len() {
            break;
        }
        if !lower_alnum_b(s[k]) {
            break;
        }
        k = k + 1;
    }
    k
}

pub(crate) fn scan_upper(s: &[u8], i: usize) -> (r: usize)
    requires
        i <= s@.len(),
    ensures
        r == upper_end(s@, i as int),
        i <= r <= s@.len(),
{
    proof {
        lemma_upper_end(s@, i as int);
    }
    let mut k: usize = i;
    loop
        invariant_except_break
            i <= k <= s@.len(),
            upper_end(s@, i as int) == upper_end(s@, k as int),
        ensures
            i <= k <= s@.len(),
            k == upper_end(s@, i as int),
        decreases s@.len() - k,
    {
        if k >= s.len() {
            break;
        }
        if !upper_b(s[k]) {
            break;
        }
        k = k + 1;
    }
    k
}

pub(crate) fn scan_alpha(s: &[u8], i: usize) -> (r: usize)
    requires
        i <= s@.len(),
    ensures
        r == alpha_end(s@, i as int),
        i <= r <= s@.len(),
{
    proof {
        lemma_alpha_end(s@, i as int);
    }
    let mut k: usize = i;
    loop
        invariant_except_break
            i <= k <= s@.len(),
            alpha_end(s@, i as int) == alpha_end(s@, k as int),
        ensures
            i <= k <= s@.len(),
            k == alpha_end(s@, i as int),
        decreases s@.len() - k,
    {
        if k >= s.len() {
            break;
        }
        if !alpha_b(s[k]) {
            break;
        }
        k = k + 1;
    }
    k
}

pub(crate) fn scan_alnum(s: &[u8], i: usize) -> (r: usize)
    requires
        i <= s@.len(),
    ensures
        r == alnum_end(s@, i as int),
        i <= r <= s@.len(),
{
    proof {
        lemma_alnum_end(s@, i as int);
    }
    let mut k: usize = i;
    loop
        invariant_except_break
            i <= k <= s@.len(),
            alnum_end(s@, i as int) == alnum_end(s@, k as int),
        ensures
            i <= k <= s@.len(),
            k == alnum_end(s@, i as int),
        decreases s@.len() - k,
    {
        if k >= s.len() {
            break;
        }
        if !alnum_b(s[k]) {
            break;
        }
        k = k + 1;
    }
    k
}

pub(crate) fn scan_digits(s: &[u8], i: usize) -> (r: usize)
    requires
        i <= s@.len(),
    ensures
        r == digit_end(s@, i as int),
        i <= r <= s@.len(),
{
    proof {
        lemma_digit_end(s@, i as int);
    }
    let mut k: usize = i;
    loop
        invariant_except_break
            i <= k <= s@.len(),
            digit_end(s@, i as int) == digit_end(s@, k as int),
        ensures
            i <= k <= s@.len(),
            k == digit_end(s@, i as int),
        decreases s@.len() - k,
    {
        if k >= s.len() {
            break;
        }
        if !digit_b(s[k]) {
            break;
        }
        k = k + 1;
    }
    k
}

pub(crate) fn scan_line(s: &[u8], i: usize) -> (r: usize)
    requires
        i <= s@.len(),
    ensures
        r == line_end(s@, i as int),
        i <= r <= s@.len(),
{
    proof {
        lemma_line_end(s@, i as int);
    }
    let mut k: usize = i;
    loop
        invariant_except_break
            i <= k <= s@.len(),
            line_end(s@, i as int) == line_end(s@, k as int),
        ensures
            i <= k <= s@.len(),
            k == line_end(s@, i as int),
        decreases s@.len() - k,
    {
        if k >= s.len() {
            break;
        }
        if crlf_b(s[k]) {
            break;
        }
        k = k + 1;
    }
    k
}

// ---------------------------------------------------------------------------
// Single-character parsers
// ---------------------------------------------------------------------------

pub open spec fn spec_uppercase(s: Seq<u8>, i: int) -> Option<(char, int)> {
    if i < s.len() && is_upper_byte(s[i]) {
        Some((s[i] as char, i + 1))
    } else {
        None
    }
}

/// Parses one uppercase letter.
pub fn uppercase(s: &[u8], i: usize) -> (r: Option<(char, usize)>)
    requires
        i <= s@.len(),
    ensures
        r is Some <==> spec_uppercase(s@, i as int) is Some,
        r is Some ==> r->Some_0.0 == spec_uppercase(s@, i as int)->Some_0.0,
        r is Some ==> r->Some_0.1 as int == spec_uppercase(s@, i as int)->Some_0.1,
{
    if i < s.len() && upper_b(s[i]) {
        Some((s[i] as char, i + 1))
    } else {
        None
    }
}

pub open spec fn spec_lowercase(s: Seq<u8>, i: int) -> Option<(char, int)> {
    if i < s.len() && is_lower_byte(s[i]) {
        Some((s[i] as char, i + 1))
    } else {
        None
    }
}

/// Parses one lowercase letter.
pub fn lowercase(s: &[u8], i: usize) -> (r: Option<(char, usize)>)
    requires
        i <= s@.len(),
    ensures
        r is Some <==> spec_lowercase(s@, i as int) is Some,
        r is Some ==> r->Some_0.0 == spec_lowercase(s@, i as int)->Some_0.0,
        r is Some ==> r->Some_0.1 as int == spec_lowercase(s@, i as int)->Some_0.1,
{
    if i < s.len() && lower_b(s[i]) {
        Some((s[i] as char, i + 1))
    } else {
        None
    }
}

pub open spec fn spec_digit(s: Seq<u8>, i: int) -> Option<(char, int)> {
    if i < s.len() && is_digit_byte(s[i]) {
        Some((s[i] as char, i + 1))
    } else {
        None
    }
}

/// Parses one decimal digit.
pub fn digit(s: &[u8], i: usize) -> (r: Option<(char, usize)>)
    requires
        i <= s@.len(),
    ensures
        r is Some <==> spec_digit(s@, i as int) is Some,
        r is Some ==> r->Some_0.0 == spec_digit(s@, i as int)->Some_0.0,
        r is Some ==> r->Some_0.1 as int == spec_digit(s@, i as int)->Some_0.1,
{
    if i < s.len() && digit_b(s[i]) {
        Some((s[i] as char, i + 1))
    } else {
        None
    }
}

pub open spec fn spec_lower_alphanum(s: Seq<u8>, i: int) -> Option<(char, int)> {
    if i < s.len() && is_lower_alnum_byte(s[i]) {
        Some((s[i] as char, i + 1))
    } else {
        None
    }
}

/// Parses one lowercase letter or digit.
pub fn lower_alphanum(s: &[u8], i: usize) -> (r: Option<(char, usize)>)
    requires
        i <= s@.len(),
    ensures
        r is Some <==> spec_lower_alphanum(s@, i as int) is Some,
        r is Some ==> r->Some_0.0 == spec_lower_alphanum(s@, i as int)->Some_0.0,
        r is Some ==> r->Some_0.1 as int == spec_lower_alphanum(s@, i as int)->Some_0.1,
{
    if i < s.len() && lower_alnum_b(s[i]) {
        Some((s[i] as char, i + 1))
    } else {
        None
    }
}

// ---------------------------------------------------------------------------
// Identifier tokens
// ---------------------------------------------------------------------------

/// One camel-case component: an uppercase letter followed by lowercase
/// letters and digits.
pub open spec fn spec_camel_case_component(s: Seq<u8>, i: int) -> Option<(Seq<char>, int)> {
    if i < s.len() && is_upper_byte(s[i]) {
        Some((chars_of(s, i, lower_alnum_end(s, i + 1)), lower_alnum_end(s, i + 1)))
    } else {
        None
    }
}

pub fn camel_case_component(s: &[u8], i: usize) -> (r: Option<(String, usize)>)
    requires
        i <= s@.len(),
    ensures
        r is Some <==> spec_camel_case_component(s@, i as int) is Some,
        r is Some ==> r->Some_0.0@ == spec_camel_case_component(s@, i as int)->Some_0.0,
        r is Some ==> r->Some_0.1 as int == spec_camel_case_component(s@, i as int)->Some_0.1,
        r is Some ==> i < r->Some_0.1 <= s@.len(),
{
    if i < s.len() && upper_b(s[i]) {
        let j = scan_lower_alnum(s, i + 1);
        Some((take_chars(s, i, j), j))
    } else {
        None
    }
}

/// A camel-case name: one or more camel-case components, which together form
/// the longest run of letters and digits beginning with an uppercase letter.
pub open spec fn spec_camel_case(s: Seq<u8>, i: int) -> Option<(Seq<char>, int)> {
    if i < s.len() && is_upper_byte(s[i]) {
        Some((chars_of(s, i, alnum_end(s, i + 1)), alnum_end(s, i + 1)))
    } else {
        None
    }
}

pub fn camel_case(s: &[u8], i: usize) -> (r: Option<(String, usize)>)
    requires
        i <= s@.len(),
    ensures
        r is Some <==> spec_camel_case(s@, i as int) is Some,
        r is Some ==> r->Some_0.0@ == spec_camel_case(s@, i as int)->Some_0.0,
        r is Some ==> r->Some_0.1 as int == spec_camel_case(s@, i as int)->Some_0.1,
        r is Some ==> i < r->Some_0.1 <= s@.len(),
{
    if i < s.len() && upper_b(s[i]) {
        let j = scan_alnum(s, i + 1);
        Some((take_chars(s, i, j), j))
    } else {
        None
    }
}

/// One snake-case component: a run of lowercase letters and digits.
pub open spec fn spec_snake_case_component(s: Seq<u8>, i: int) -> Option<(Seq<char>, int)> {
    if i < s.len() && is_lower_alnum_byte(s[i]) {
        Some((chars_of(s, i, lower_alnum_end(s, i)), lower_alnum_end(s, i)))
    } else {
        None
    }
}

pub fn snake_case_component(s: &[u8], i: usize) -> (r: Option<(String, usize)>)
    requires
        i <= s@.len(),
    ensures
        r is Some <==> spec_snake_case_component(s@, i as int) is Some,
        r is Some ==> r->Some_0.0@ == spec_snake_case_component(s@, i as int)->Some_0.0,
        r is Some ==> r->Some_0.1 as int == spec_snake_case_component(s@, i as int)->Some_0.1,
        r is Some ==> i < r->Some_0.1 <= s@.len(),
{
    if i < s.len() && lower_alnum_b(s[i]) {
        proof {
            lemma_lower_alnum_end(s@, i as int);
        }
        let j = scan_lower_alnum(s, i);
        Some((take_chars(s, i, j), j))
    } else {
        None
    }
}

/// One upper-snake-case component: a run of uppercase letters.
pub open spec fn spec_upper_snake_case_component(s: Seq<u8>, i: int) -> Option<(Seq<char>, int)> {
    if i < s.len() && is_upper_byte(s[i]) {
        Some((chars_of(s, i, upper_end(s, i)), upper_end(s, i)))
    } else {
        None
    }
}

pub fn upper_snake_case_component(s: &[u8], i: usize) -> (r: Option<(String, usize)>)
    requires
        i <= s@.len(),
    ensures
        r is Some <==> spec_upper_snake_case_component(s@, i as int) is Some,
        r is Some ==> r->Some_0.0@ == spec_upper_snake_case_component(s@, i as int)->Some_0.0,
        r is Some ==> r->Some_0.1 as int == spec_upper_snake_case_component(s@, i as int)->Some_0.1,
        r is Some ==> i < r->Some_0.1 <= s@.len(),
{
    if i < s.len() && upper_b(s[i]) {
        proof {
            lemma_upper_end(s@, i as int);
        }
        let j = scan_upper(s, i);
        Some((take_chars(s, i, j), j))
    } else {
        None
    }
}

/// A snake-case name: components joined by single underscores.  A trailing
/// underscore not followed by a component is left unconsumed.
pub open spec fn spec_snake_case(s: Seq<u8>, i: int) -> Option<(Seq<char>, int)>
    decreases s.len() - i when 0 <= i <= s.len()
{
    if i < s.len() && is_lower_alnum_byte(s[i]) {
        let j = lower_alnum_end(s, i);
        if !(i < j <= s.len()) {
            None
        } else if j < s.len() && s[j] == 95 && j + 1 < s.len() && is_lower_alnum_byte(s[j + 1]) {
            match spec_snake_case(s, j + 1) {
                Some((rest, k)) => Some((chars_of(s, i, j) + seq!['_'] + rest, k)),
                None => None,
            }
        } else {
            Some((chars_of(s, i, j), j))
        }
    } else {
        None
    }
}

pub fn snake_case(s: &[u8], i: usize) -> (r: Option<(String, usize)>)
    requires
        i <= s@.len(),
    ensures
        r is Some <==> spec_snake_case(s@, i as int) is Some,
        r is Some ==> r->Some_0.0@ == spec_snake_case(s@, i as int)->Some_0.0,
        r is Some ==> r->Some_0.1 as int == spec_snake_case(s@, i as int)->Some_0.1,
        r is Some ==> i < r->Some_0.1 <= s@.len(),
    decreases s@.len() - i,
{
    if i < s.len() && lower_alnum_b(s[i]) {
        proof {
            lemma_lower_alnum_end(s@, i as int);
        }
        let j = scan_lower_alnum(s, i);
        if j < s.len() && s[j] == 95 && j + 1 < s.len() && lower_alnum_b(s[j + 1]) {
            match snake_case(s, j + 1) {
                Some((rest, k)) => {
                    let mut name = take_chars(s, i, j);
                    push_char(&mut name, '_');
                    name.append(rest.as_str());
                    proof {
                        assert(name@ =~= chars_of(s@, i as int, j as int) + seq!['_']
                            + rest@);
                    }
                    Some((name, k))
                },
                None => None,
            }
        } else {
            Some((take_chars(s, i, j), j))
        }
    } else {
        None
    }
}

/// An upper-snake-case name: uppercase components joined by single
/// underscores.
pub open spec fn spec_upper_snake_case(s: Seq<u8>, i: int) -> Option<(Seq<char>, int)>
    decreases s.len() - i when 0 <= i <= s.len()
{
    if i < s.len() && is_upper_byte(s[i]) {
        let j = upper_end(s, i);
        if !(i < j <= s.len()) {
            None
        } else if j < s.len() && s[j] == 95 && j + 1 < s.len() && is_upper_byte(s[j + 1]) {
            match spec_upper_snake_case(s, j + 1) {
                Some((rest, k)) => Some((chars_of(s, i, j) + seq!['_'] + rest, k)),
                None => None,
            }
        } else {
            Some((chars_of(s, i, j), j))
        }
    } else {
        None
    }
}

pub fn upper_snake_case(s: &[u8], i: usize) -> (r: Option<(String, usize)>)
    requires
        i <= s@.len(),
    ensures
        r is Some <==> spec_upper_snake_case(s@, i as int) is Some,
        r is Some ==> r->Some_0.0@ == spec_upper_snake_case(s@, i as int)->Some_0.0,
        r is Some ==> r->Some_0.1 as int == spec_upper_snake_case(s@, i as int)->Some_0.1,
        r is Some ==> i < r->Some_0.1 <= s@.len(),
    decreases s@.len() - i,
{
    if i < s.len() && upper_b(s[i]) {
        proof {
            lemma_upper_end(s@, i as int);
        }
        let j = scan_upper(s, i);
        if j < s.len() && s[j] == 95 && j + 1 < s.len() && upper_b(s[j + 1]) {
            match upper_snake_case(s, j + 1) {
                Some((rest, k)) => {
                    let mut name = take_chars(s, i, j);
                    push_char(&mut name, '_');
                    name.append(rest.as_str());
                    proof {
                        assert(name@ =~= chars_of(s@, i as int, j as int) + seq!['_']
                            + rest@);
                    }
                    Some((name, k))
                },
                None => None,
            }
        } else {
            Some((take_chars(s, i, j), j))
        }
    } else {
        None
    }
}

// ---------------------------------------------------------------------------
// Numbers
// ---------------------------------------------------------------------------

/// The value of digits `i..j` as an unsigned 32-bit number, or nothing where
/// it does not fit.
pub open spec fn fold_digits_u32(s: Seq<u8>, i: int, j: int) -> Option<u32>
    decreases j - i when i <= j
{
    if j <= i {
        Some(0u32)
    } else {
        match fold_digits_u32(s, i, j - 1) {
            None => None,
            Some(acc) => {
                let v: int = (acc as int) * 10 + (s[j - 1] as int) - 48;
                if v > u32::MAX as int {
                    None
                } else {
                    Some(v as u32)
                }
            },
        }
    }
}

/// The value of digits `i..j` as an unsigned machine word, or nothing where
/// it does not fit.
pub open spec fn fold_digits_usize(s: Seq<u8>, i: int, j: int) -> Option<usize>
    decreases j - i when i <= j
{
    if j <= i {
        Some(0usize)
    } else {
        match fold_digits_usize(s, i, j - 1) {
            None => None,
            Some(acc) => {
                let v: int = (acc as int) * 10 + (s[j - 1] as int) - 48;
                if v > usize::MAX as int {
                    None
                } else {
                    Some(v as usize)
                }
            },
        }
    }
}

proof fn lemma_fold_u32_none(s: Seq<u8>, i: int, k: int, j: int)
    requires
        i <= k <= j,
        fold_digits_u32(s, i, k) is None,
    ensures
        fold_digits_u32(s, i, j) is None,
    decreases j - k,
{
    if k < j {
        lemma_fold_u32_none(s, i, k + 1, j);
    }
}

proof fn lemma_fold_usize_none(s: Seq<u8>, i: int, k: int, j: int)
    requires
        i <= k <= j,
        fold_digits_usize(s, i, k) is None,
    ensures
        fold_digits_usize(s, i, j) is None,
    decreases j - k,
{
    if k < j {
        lemma_fold_usize_none(s, i, k + 1, j);
    }
}

/// One or more decimal digits read as an unsigned 32-bit number; a value
/// that does not fit fails the parse.
pub open spec fn spec_parse_u32(s: Seq<u8>, i: int) -> Option<(u32, int)> {
    let j = digit_end(s, i);
    if j <= i {
        None
    } else {
        match fold_digits_u32(s, i, j) {
            None => None,
            Some(v) => Some((v, j)),
        }
    }
}

pub fn parse_u32(s: &[u8], i: usize) -> (r: Option<(u32, usize)>)
    requires
        i <= s@.len(),
    ensures
        r is Some <==> spec_parse_u32(s@, i as int) is Some,
        r is Some ==> r->Some_0.0 == spec_parse_u32(s@, i as int)->Some_0.0,
        r is Some ==> r->Some_0.1 as int == spec_parse_u32(s@, i as int)->Some_0.1,
        r is Some ==> i < r->Some_0.1 <= s@.len(),
{
    proof {
        lemma_digit_end(s@, i as int);
    }
    let j = scan_digits(s, i);
    if j == i {
        return None;
    }
    let mut acc: u32 = 0;
    let mut k: usize = i;
    while k < j
        invariant
            i <= k <= j <= s@.len(),
            j == digit_end(s@, i as int),
            forall|m: int| i <= m < j ==> is_digit_byte(#[trigger] s@[m]),
            fold_digits_u32(s@, i as int, k as int) == Some(acc),
        decreases j - k,
    {
        let d: u8 = s[k];
        let v: u64 = acc as u64 * 10 + (d as u64 - 48);
        if v > u32::MAX as u64 {
            proof {
                lemma_fold_u32_none(s@, i as int, k + 1, j as int);
            }
            return None;
        }
        acc = v as u32;
        k = k + 1;
    }
    Some((acc, j))
}

/// One or more decimal digits read as an unsigned machine word; a value that
/// does not fit fails the parse.
pub open spec fn spec_parse_usize(s: Seq<u8>, i: int) -> Option<(usize, int)> {
    let j = digit_end(s, i);
    if j <= i {
        None
    } else {
        match fold_digits_usize(s, i, j) {
            None => None,
            Some(v) => Some((v, j)),
        }
    }
}

pub fn parse_usize(s: &[u8], i: usize) -> (r: Option<(usize, usize)>)
    requires
        i <= s@.len(),
    ensures
        r is Some <==> spec_parse_usize(s@, i as int) is Some,
        r is Some ==> r->Some_0.0 == spec_parse_usize(s@, i as int)->Some_0.0,
        r is Some ==> r->Some_0.1 as int == spec_parse_usize(s@, i as int)->Some_0.1,
        r is Some ==> i < r->Some_0.1 <= s@.len(),
{
    proof {
        lemma_digit_end(s@, i as int);
    }
    let j = scan_digits(s, i);
    if j == i {
        return None;
    }
    let mut acc: usize = 0;
    let mut k: usize = i;
    while k < j
        invariant
            i <= k <= j <= s@.len(),
            j == digit_end(s@, i as int),
            forall|m: int| i <= m < j ==> is_digit_byte(#[trigger] s@[m]),
            fold_digits_usize(s@, i as int, k as int) == Some(acc),
        decreases j - k,
    {
        let d: u8 = s[k];
        let v: u128 = acc as u128 * 10 + (d as u128 - 48);
        if v > usize::MAX as u128 {
            proof {
                lemma_fold_usize_none(s@, i as int, k + 1, j as int);
            }
            return None;
        }
        acc = v as usize;
        k = k + 1;
    }
    Some((acc, j))
}

// ---------------------------------------------------------------------------
// Documentation comments
// ---------------------------------------------------------------------------

/// One line comment: two slashes, then the text up to the line break.  An
/// empty comment right before a line break carries no text; a comment ending
/// the input, or one whose text is not valid UTF-8, fails.
pub open spec fn spec_parse_comment(s: Seq<u8>, i: int) -> Option<(Option<Seq<char>>, int)> {
    if 0 <= i && i + 2 <= s.len() && s[i] == 47 && s[i + 1] == 47 {
        let j = line_end(s, i + 2);
        if j == i + 2 {
            if i + 2 < s.len() {
                Some((None, i + 2))
            } else {
                None
            }
        } else {
            let raw = s.subrange(i + 2, j);
            if valid_utf8(raw) {
                Some((Some(decode_utf8(raw)), j))
            } else {
                None
            }
        }
    } else {
        None
    }
}

pub fn parse_comment(s: &[u8], i: usize) -> (r: Option<(Option<String>, usize)>)
    requires
        i <= s@.len(),
    ensures
        r is Some <==> spec_parse_comment(s@, i as int) is Some,
        r is Some ==> (r->Some_0.0 is Some <==> spec_parse_comment(s@, i as int)->Some_0.0
            is Some),
        r is Some && r->Some_0.0 is Some ==> r->Some_0.0->Some_0@ == spec_parse_comment(
            s@,
            i as int,
        )->Some_0.0->Some_0,
        r is Some ==> r->Some_0.1 as int == spec_parse_comment(s@, i as int)->Some_0.1,
        r is Some ==> i + 2 <= r->Some_0.1 <= s@.len(),
{
    if i < s.len() && s[i] == 47 && i + 1 < s.len() && s[i + 1] == 47 {
        let c = i + 2;
        proof {
            lemma_line_end(s@, c as int);
        }
        let j = scan_line(s, c);
        if j == c {
            if c < s.len() {
                Some((None, c))
            } else {
                None
            }
        } else {
            let mut raw: Vec<u8> = Vec::new();
            let mut k: usize = c;
            while k < j
                invariant
                    c <= k <= j <= s@.len(),
                    raw@ == s@.subrange(c as int, k as int),
                decreases j - k,
            {
                raw.push(s[k]);
                k = k + 1;
                proof {
                    assert(s@.subrange(c as int, k as int) =~= s@.subrange(c as int, k - 1).push(
                        s@[k - 1],
                    ));
                }
            }
            match string_from_utf8(raw) {
                Some(text) => Some((Some(text), j)),
                None => None,
            }
        }
    } else {
        None
    }
}

/// The number of line breaks in bytes `i..j`: each line feed, and each
/// carriage return not directly followed by a line feed, counts as one.
pub open spec fn spec_line_breaks(s: Seq<u8>, i: int, j: int) -> int
    decreases j - i when 0 <= i <= j <= s.len()
{
    if i >= j {
        0
    } else if s[i] == 13 {
        if i + 1 < j && s[i + 1] == 10 {
            1 + spec_line_breaks(s, i + 2, j)
        } else {
            1 + spec_line_breaks(s, i + 1, j)
        }
    } else if s[i] == 10 {
        1 + spec_line_breaks(s, i + 1, j)
    } else {
        spec_line_breaks(s, i + 1, j)
    }
}

/// Counts the line breaks in bytes `i..j`.
fn count_line_breaks(s: &[u8], i: usize, j: usize) -> (r: usize)
    requires
        i <= j <= s@.len(),
    ensures
        r as int == spec_line_breaks(s@, i as int, j as int),
{
    let mut count: usize = 0;
    let mut k: usize = i;
    while k < j
        invariant
            i <= k <= j <= s@.len(),
            count <= k - i,
            count + spec_line_breaks(s@, k as int, j as int) == spec_line_breaks(
                s@,
                i as int,
                j as int,
            ),
        decreases j - k,
    {
        if s[k] == 13 {
            count = count + 1;
            if k + 1 < j && s[k + 1] == 10 {
                k = k + 2;
            } else {
                k = k + 1;
            }
        } else if s[k] == 10 {
            count = count + 1;
            k = k + 1;
        } else {
            k = k + 1;
        }
    }
    count
}

/// A run of line comments, each surrounded by optional whitespace, together
/// with the position after the run and whether the run reaches whatever
/// follows without a blank line.  A whitespace gap holding more than one
/// line break cuts the run: everything before the gap is consumed but
/// discarded, so only the comment lines standing contiguously right before
/// the following content are kept.  Empty comments are dropped without
/// cutting the run; the text of each kept comment has its double quotes
/// escaped.
pub open spec fn spec_parse_comments_full(s: Seq<u8>, i: int) -> (Seq<Seq<char>>, int, bool)
    decreases s.len() - i when 0 <= i <= s.len()
{
    let i1 = ws_end(s, i);
    if !(i <= i1 <= s.len()) {
        (Seq::empty(), i, true)
    } else {
        match spec_parse_comment(s, i1) {
            None => (Seq::empty(), i, true),
            Some((copt, j)) => {
                if !(i1 < j <= s.len()) {
                    (Seq::empty(), i, true)
                } else {
                    let i2 = ws_end(s, j);
                    if !(j <= i2 <= s.len()) {
                        (Seq::empty(), i, true)
                    } else {
                        let (rest, k, clean) = spec_parse_comments_full(s, i2);
                        if spec_line_breaks(s, j, i2) >= 2 || !clean {
                            (rest, k, false)
                        } else {
                            match copt {
                                None => (rest, k, true),
                                Some(text) => (seq![escape_chars(text)] + rest, k, true),
                            }
                        }
                    }
                }
            },
        }
    }
}

/// The documentation run attached to whatever follows, and the position
/// after every leading comment: a blank line between comments, or between
/// the last comment and the following content, breaks attachment.
pub open spec fn spec_parse_comments(s: Seq<u8>, i: int) -> (Seq<Seq<char>>, int) {
    let (cs, k, clean) = spec_parse_comments_full(s, i);
    (cs, k)
}

fn parse_comments_full(s: &[u8], i: usize) -> (r: (Vec<String>, usize, bool))
    requires
        i <= s@.len(),
    ensures
        r.1 as int == spec_parse_comments_full(s@, i as int).1,
        r.2 == spec_parse_comments_full(s@, i as int).2,
        r.0@.len() == spec_parse_comments_full(s@, i as int).0.len(),
        forall|n: int| 0 <= n < r.0@.len() ==> r.0@[n]@ == spec_parse_comments_full(
            s@,
            i as int,
        ).0[n],
        i <= r.1 <= s@.len(),
    decreases s@.len() - i,
{
    let i1 = ws0(s, i);
    match parse_comment(s, i1) {
        None => (Vec::new(), i, true),
        Some((copt, j)) => {
            let i2 = ws0(s, j);
            let (rest, k, clean) = parse_comments_full(s, i2);
            if count_line_breaks(s, j, i2) >= 2 || !clean {
                (rest, k, false)
            } else {
                match copt {
                    None => (rest, k, true),
                    Some(text) => {
                        let e = escape_quotes(text.as_str());
                        let mut out = rest;
                        out.insert(0, e);
                        proof {
                            let sp = spec_parse_comments_full(s@, i as int);
                            assert(out@.len() == sp.0.len());
                        }
                        (out, k, true)
                    },
                }
            }
        },
    }
}

/// Collects the documentation run attached to whatever follows; see
/// `spec_parse_comments`.
pub fn parse_comments(s: &[u8], i: usize) -> (r: (Vec<String>, usize))
    requires
        i <= s@.len(),
    ensures
        r.1 as int == spec_parse_comments(s@, i as int).1,
        r.0@.len() == spec_parse_comments(s@, i as int).0.len(),
        forall|n: int| 0 <= n < r.0@.len() ==> r.0@[n]@ == spec_parse_comments(s@, i as int).0[n],
        i <= r.1 <= s@.len(),
{
    let (cs, k, _) = parse_comments_full(s, i);
    (cs, k)
}

} // verus!
