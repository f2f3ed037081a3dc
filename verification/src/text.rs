//! Text helpers: case folding of names and the equality of texts.

use vstd::prelude::*;

verus! {

/// Every character of `s` is an ASCII character.
pub open spec fn is_ascii_text(s: Seq<char>) -> bool {
    forall|i: int| 0 <= i < s.len() ==> (#[trigger] s[i] as u32) < 128
}

/// The ASCII upper-case form of one character: `a`..`z` become `A`..`Z`,
/// every other character stays as it is.
pub open spec fn ascii_upper_char(c: char) -> char {
    if 97 <= (c as u32) && (c as u32) <= 122 {
        ((c as u32) - 32) as char
    } else {
        c
    }
}

/// The ASCII upper-case form of a text, character by character.
pub open spec fn ascii_uppercase(s: Seq<char>) -> Seq<char> {
    Seq::new(s.len(), |i: int| ascii_upper_char(s[i]))
}

/// What `str::to_uppercase` gives back for a text (full Unicode case mapping).
pub uninterp spec fn str_uppercase(s: Seq<char>) -> Seq<char>;

/// The upper-case form of a text as the library computes it: for ASCII text
/// it is the ASCII upper-case form, for other text whatever Unicode
/// upper-casing gives.
pub open spec fn uppercase_of(s: Seq<char>) -> Seq<char> {
    if is_ascii_text(s) {
        ascii_uppercase(s)
    } else {
        str_uppercase(s)
    }
}

/// Calls `str::to_uppercase` of std.  Trusted: the result is the Unicode
/// upper-case mapping of `s`, a function of `s` alone (named
/// `str_uppercase`); on ASCII text that mapping turns `a`..`z` into
/// `A`..`Z` and keeps every other character, as the documentation's own
/// example ("hello" gives "HELLO") shows.  What it does to other characters
/// (one character may become several) is left unsaid.
#[verifier::external_body]
pub(crate) fn uppercase(s: &str) -> (r: String)
    ensures
        r@ == str_uppercase(s@),
        is_ascii_text(s@) ==> r@ == ascii_uppercase(s@),
{
    s.to_uppercase()
}

/// Whether two texts hold the same characters.
pub(crate) fn text_equals(a: &str, b: &str) -> (r: bool)
    ensures
        r == (a@ == b@),
{
    let x: String = a.to_owned();
    let y: String = b.to_owned();
    x == y
}

/// The text `a` followed by the text `b`.
pub(crate) fn join(a: &str, b: &str) -> (r: String)
    ensures
        r@ == a@ + b@,
{
    let mut r: String = a.to_owned();
    r.append(b);
    r
}

/// The message that rejects a text that names no value of an enumeration.
pub(crate) fn invalid_value_message(kind: &str, value: &str) -> (m: String)
    ensures
        m@ == "Invalid "@ + kind@ + " value: "@ + value@,
{
    let mut m: String = "Invalid ".to_owned();
    m.append(kind);
    m.append(" value: ");
    m.append(value);
    m
}

} // verus!
