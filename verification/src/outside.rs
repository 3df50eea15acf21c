//! What this crate takes on trust: functions of `std` that come without a
//! specification, and one of `crossterm`.
use vstd::prelude::*;
use vstd::utf8::{decode_utf8, is_ascii_chars, valid_utf8};

verus! {

/// Whether `c` has the Unicode property `White_Space`.
pub open spec fn white_space(c: char) -> bool {
    let u = c as u32;
    ||| 0x9 <= u <= 0xd
    ||| u == 0x20
    ||| u == 0x85
    ||| u == 0xa0
    ||| u == 0x1680
    ||| 0x2000 <= u <= 0x200a
    ||| u == 0x2028
    ||| u == 0x2029
    ||| u == 0x202f
    ||| u == 0x205f
    ||| u == 0x3000
}

/// `s` without the white space that it starts with.
pub open spec fn trimmed_start(s: Seq<char>) -> Seq<char>
    decreases s.len(),
{
    if s.len() > 0 && white_space(s.first()) {
        trimmed_start(s.drop_first())
    } else {
        s
    }
}

/// `s` without the white space that it ends with.
pub open spec fn trimmed_end(s: Seq<char>) -> Seq<char>
    decreases s.len(),
{
    if s.len() > 0 && white_space(s.last()) {
        trimmed_end(s.drop_last())
    } else {
        s
    }
}

/// `s` without the white space at either end.
pub open spec fn trimmed(s: Seq<char>) -> Seq<char> {
    trimmed_end(trimmed_start(s))
}

/// `std`'s `str::trim`: leading and trailing characters with the Unicode
/// property `White_Space` are removed, the rest is kept.
pub assume_specification[ str::trim ](s: &str) -> (r: &str)
    ensures
        r@ == trimmed(s@),
;

/// `c`, an upper-case ASCII letter made lower-case.
pub open spec fn ascii_lower(c: char) -> char {
    if 'A' <= c && c <= 'Z' {
        (c as u32 + 32) as char
    } else {
        c
    }
}

/// `s` with each upper-case ASCII letter made lower-case.
pub open spec fn ascii_lowered(s: Seq<char>) -> Seq<char> {
    Seq::new(s.len(), |i: int| ascii_lower(s[i]))
}

/// `std`'s `str::eq_ignore_ascii_case`: whether the two are equal once the
/// ASCII letters of both are made lower-case.
pub assume_specification[ str::eq_ignore_ascii_case ](s: &str, other: &str) -> (r: bool)
    ensures
        r == (ascii_lowered(s@) == ascii_lowered(other@)),
;

/// The lower-case form of a text by Unicode's rules, as `str::to_lowercase`
/// gives it.
pub uninterp spec fn lowercase(s: Seq<char>) -> Seq<char>;

/// `std`'s `str::to_lowercase`: the result depends on the text alone, and on
/// ASCII text it makes the letters `A` to `Z` lower-case and keeps the rest.
/// Of other characters nothing is claimed.
pub assume_specification[ str::to_lowercase ](s: &str) -> (r: String)
    ensures
        r@ == lowercase(s@),
        is_ascii_chars(s@) ==> r@ == ascii_lowered(s@),
;

/// `std`'s `String::push`: the character is appended.
pub assume_specification[ String::push ](s: &mut String, ch: char)
    ensures
        final(s)@ == old(s)@.push(ch),
;

/// The text that `String::from_utf8_lossy` makes of some bytes.
pub uninterp spec fn utf8_lossy(bytes: Seq<u8>) -> Seq<char>;

/// `std`'s `String::from_utf8_lossy`: the result depends on the bytes alone;
/// valid UTF-8 is decoded as it stands, and since each invalid sequence is
/// replaced by a character, only no bytes at all give an empty text. How many
/// replacement characters stand for an invalid sequence is not claimed.
#[verifier::external_body]
pub(crate) fn from_utf8_lossy(bytes: &[u8]) -> (r: String)
    ensures
        r@ == utf8_lossy(bytes@),
        valid_utf8(bytes@) ==> r@ == decode_utf8(bytes@),
        r@.len() == 0 <==> bytes@.len() == 0,
{
    String::from_utf8_lossy(bytes).into_owned()
}

/// Whether the bit that `crossterm` uses for the Control key is set.
pub open spec fn has_control(modifiers: u8) -> bool {
    modifiers & 0b0000_0010 == 0b0000_0010
}

/// `crossterm`'s `KeyModifiers::contains`, asked for `KeyModifiers::CONTROL`:
/// whether the second-lowest bit of the modifiers is set.
#[verifier::external_body]
pub(crate) fn contains_control(modifiers: u8) -> (r: bool)
    ensures
        r == has_control(modifiers),
{
    crossterm::event::KeyModifiers::from_bits_retain(modifiers)
        .contains(crossterm::event::KeyModifiers::CONTROL)
}

} // verus!
