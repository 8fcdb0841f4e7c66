//! Checks on names that travel in messages.

use vstd::prelude::*;

verus! {

/// Whether a character has the Unicode `White_Space` property, as
/// `char::is_whitespace` reports it: tab, line feed, vertical tab, form
/// feed, carriage return, space, next line, no-break space, ogham space
/// mark, the spaces U+2000 to U+200A, line and paragraph separators, narrow
/// no-break space, medium mathematical space and ideographic space.
pub open spec fn is_whitespace_char(c: char) -> bool {
    let n = c as u32;
    ||| 0x09 <= n <= 0x0d
    ||| n == 0x20
    ||| n == 0x85
    ||| n == 0xa0
    ||| n == 0x1680
    ||| 0x2000 <= n <= 0x200a
    ||| n == 0x2028
    ||| n == 0x2029
    ||| n == 0x202f
    ||| n == 0x205f
    ||| n == 0x3000
}

/// Whether a character is in the Unicode general category of control codes
/// (`Cc`), as `char::is_control` reports it: U+0000 to U+001F and U+007F to
/// U+009F.
pub open spec fn is_control_char(c: char) -> bool {
    let n = c as u32;
    n <= 0x1f || 0x7f <= n <= 0x9f
}

/// `char::is_whitespace`: whether the character has the Unicode
/// `White_Space` property, listed by `is_whitespace_char`.
#[verifier::external_body]
fn char_is_whitespace(c: char) -> (r: bool)
    ensures
        r == is_whitespace_char(c),
{
    c.is_whitespace()
}

/// `char::is_control`: whether the character is in the Unicode general
/// category `Cc`, as `is_control_char` gives it.
#[verifier::external_body]
fn char_is_control(c: char) -> (r: bool)
    ensures
        r == is_control_char(c),
{
    c.is_control()
}

/// A character that a name may hold: no control character, and no
/// whitespace unless whitespace is allowed.
pub open spec fn printable_char(c: char, ws_printable: bool) -> bool {
    (ws_printable || !is_whitespace_char(c)) && !is_control_char(c)
}

/// A string that is not empty and whose characters are all printable.
pub open spec fn printable(s: Seq<char>, ws_printable: bool) -> bool {
    s.len() > 0 && forall|i: int| 0 <= i < s.len() ==> printable_char(#[trigger] s[i], ws_printable)
}

/// Returns true if the given string is not empty and every character is
/// printable: no control character, and no whitespace unless
/// `ws_printable` is set.
pub fn is_printable(s: &str, ws_printable: bool) -> (r: bool)
    ensures
        r == printable(s@, ws_printable),
{
    if s.is_empty() {
        return false;
    }
    let mut all = true;
    let ghost chars = s@;
    for c in it: s.chars()
        invariant
            chars == s@,
            it.seq() == chars,
            all == (forall|j: int| 0 <= j < it.index() ==> printable_char(#[trigger] chars[j], ws_printable)),
    {
        let ret = if ws_printable {
            true
        } else {
            !char_is_whitespace(c)
        };
        let ok = ret && !char_is_control(c);
        all = all && ok;
    }
    all
}

/// Allowing whitespace only widens what is printable: a name printable
/// without whitespace is printable with it.
pub proof fn lemma_printable_widens(s: Seq<char>)
    ensures
        printable(s, false) ==> printable(s, true),
{
}

} // verus!
