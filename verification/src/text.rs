//! Building human readable text: decimal and binary renderings of numbers.

use vstd::prelude::*;

verus! {

/// The character for a digit value below 10.
pub open spec fn spec_digit(d: nat) -> char {
    if d == 0 { '0' } else if d == 1 { '1' } else if d == 2 { '2' } else if d == 3 { '3' }
    else if d == 4 { '4' } else if d == 5 { '5' } else if d == 6 { '6' } else if d == 7 { '7' }
    else if d == 8 { '8' } else { '9' }
}

/// The decimal rendering of `n`, most significant digit first, without
/// leading zeros (zero itself is rendered as `0`).
pub open spec fn spec_decimal(n: nat) -> Seq<char>
    decreases n,
{
    if n < 10 {
        seq![spec_digit(n)]
    } else {
        spec_decimal(n / 10).push(spec_digit(n % 10))
    }
}

/// The binary rendering of `n`, most significant bit first, without leading
/// zeros (zero itself is rendered as `0`).
pub open spec fn spec_binary(n: nat) -> Seq<char>
    decreases n,
{
    if n < 2 {
        seq![spec_digit(n)]
    } else {
        spec_binary(n / 2).push(spec_digit(n % 2))
    }
}

/// Appends one character to a string (`String::push`).
#[verifier::external_body]
pub(crate) fn push_char(s: &mut String, c: char)
    ensures
        final(s)@ == old(s)@.push(c),
{
    s.push(c);
}

fn digit_char(d: u64) -> (c: char)
    requires
        d < 10,
    ensures
        c == spec_digit(d as nat),
{
    match d {
        0 => '0',
        1 => '1',
        2 => '2',
        3 => '3',
        4 => '4',
        5 => '5',
        6 => '6',
        7 => '7',
        8 => '8',
        _ => '9',
    }
}

/// Appends the decimal rendering of `n` to `s`.
pub fn push_decimal(s: &mut String, n: u64)
    ensures
        final(s)@ == old(s)@ + spec_decimal(n as nat),
    decreases n,
{
    if n >= 10 {
        push_decimal(s, n / 10);
    }
    let d = digit_char(n % 10);
    push_char(s, d);
    proof {
        if n >= 10 {
            assert(spec_decimal(n as nat) == spec_decimal((n / 10) as nat).push(spec_digit((n % 10) as nat)));
        }
    }
}

/// Appends the binary rendering of `n` to `s`.
pub fn push_binary(s: &mut String, n: u64)
    ensures
        final(s)@ == old(s)@ + spec_binary(n as nat),
    decreases n,
{
    if n >= 2 {
        push_binary(s, n / 2);
    }
    let d = digit_char(n % 2);
    push_char(s, d);
}

/// Appends a string slice to `s`.
pub fn push_str(s: &mut String, t: &str)
    ensures
        final(s)@ == old(s)@ + t@,
{
    s.append(t);
}

/// The lowercase form of a string, as `str::to_lowercase` computes it from
/// the Unicode case tables.
pub uninterp spec fn lowercase_of(s: Seq<char>) -> Seq<char>;

/// The lowercase form of an ASCII character: 'A' to 'Z' become 'a' to 'z',
/// every other character stays.
pub open spec fn ascii_lower(c: char) -> char {
    if 'A' <= c <= 'Z' {
        ((c as u32) + 32) as char
    } else {
        c
    }
}

/// `str::to_lowercase`: the result is the name `lowercase_of` of the
/// characters; where every character is ASCII, the documentation fixes the
/// result character by character, which is stated too.
#[verifier::external_body]
pub(crate) fn to_lowercase(s: &str) -> (r: String)
    ensures
        r@ == lowercase_of(s@),
        (forall|i: int| 0 <= i < s@.len() ==> (#[trigger] s@[i] as u32) < 128) ==> r@ == s@.map_values(
            |c: char| ascii_lower(c),
        ),
{
    s.to_lowercase()
}

/// A new string holding the characters of `t`.
pub fn string_of(t: &str) -> (r: String)
    ensures
        r@ == t@,
{
    t.to_string()
}

/// The decimal rendering of `n` as a new string.
pub fn decimal(n: u64) -> (r: String)
    ensures
        r@ == spec_decimal(n as nat),
{
    let mut s = String::new();
    push_decimal(&mut s, n);
    s
}

} // verus!
