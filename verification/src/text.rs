//! Text helpers that rest on the standard library: lossy decoding of bytes,
//! substring search, and the character of a code point.

use vstd::prelude::*;
use vstd::utf8::decode_utf8;
use vstd::utf8::valid_utf8;

verus! {

/// The text that lossy UTF-8 decoding makes of `bytes`: the decoded text
/// where the bytes are valid UTF-8, and otherwise that text with U+FFFD in
/// place of what cannot be decoded.
pub uninterp spec fn utf8_lossy(bytes: Seq<u8>) -> Seq<char>;

/// `needle` occurs in `hay` as a run of consecutive characters.
pub open spec fn occurs_in(needle: Seq<char>, hay: Seq<char>) -> bool {
    exists|from: int, to: int|
        0 <= from <= to <= hay.len() && #[trigger] hay.subrange(from, to) == needle
}

/// The views of a list of strings.
pub open spec fn texts_of(strings: Seq<String>) -> Seq<Seq<char>> {
    Seq::new(strings.len(), |i: int| strings[i]@)
}

/// Whether `code` is a Unicode scalar value: at most U+10FFFF and no
/// surrogate.
pub open spec fn is_scalar_value(code: u32) -> bool {
    code <= 0x10FFFF && !(0xD800 <= code <= 0xDFFF)
}

/// Calls `String::from_utf8_lossy`. Its result has a name in place of a
/// definition; the one fact stated of it is that valid UTF-8 is decoded as
/// it stands.
#[verifier::external_body]
pub(crate) fn lossy_text(bytes: &[u8]) -> (text: String)
    ensures
        text@ == utf8_lossy(bytes@),
        valid_utf8(bytes@) ==> text@ == decode_utf8(bytes@),
{
    String::from_utf8_lossy(bytes).into_owned()
}

/// Calls `str::contains` with a string as the pattern: whether the pattern
/// occurs anywhere in the text.
#[verifier::external_body]
pub(crate) fn contains_text(hay: &str, needle: &str) -> (found: bool)
    ensures
        found == occurs_in(needle@, hay@),
{
    hay.contains(needle)
}

/// Calls `char::from_u32`: the character with the given code point, which
/// exists exactly for the Unicode scalar values.
#[verifier::external_body]
pub(crate) fn char_of(code: u32) -> (c: Option<char>)
    ensures
        c == if is_scalar_value(code) {
            Some(code as char)
        } else {
            None
        },
{
    char::from_u32(code)
}

/// `String::push` appends one character to the text.
pub assume_specification[ String::push ](text: &mut String, ch: char)
    ensures
        final(text)@ == old(text)@.push(ch),
;

} // verus!
