//! Lossy text decoding, relied on from the standard library.
//!
//! The two decoders below turn raw bytes or raw 16-bit words into text,
//! replacing ill-formed sequences with the replacement character.  Their
//! results are functions of their arguments alone; the contracts name them
//! rather than restate the UTF-8 and UTF-16 decoding rules.

use vstd::prelude::*;

verus! {

/// The text that lossy UTF-8 decoding gives for `bytes`.
pub uninterp spec fn utf8_lossy_of(bytes: Seq<u8>) -> Seq<char>;

/// The text that lossy UTF-16 decoding gives for `words`.
pub uninterp spec fn utf16_lossy_of(words: Seq<u16>) -> Seq<char>;

/// Relies on String::from_utf8_lossy: decodes the bytes as UTF-8, ill-formed
/// sequences replaced by U+FFFD; the result depends on the bytes alone, and
/// an empty input gives an empty string.
#[verifier::external_body]
pub(crate) fn utf8_lossy(bytes: &[u8]) -> (s: String)
    ensures
        s@ == utf8_lossy_of(bytes@),
        bytes@.len() == 0 ==> s@.len() == 0,
{
    String::from_utf8_lossy(bytes).into_owned()
}

/// Relies on String::from_utf16_lossy: decodes the words as UTF-16,
/// ill-formed sequences replaced by U+FFFD; the result depends on the words
/// alone, and an empty input gives an empty string.
#[verifier::external_body]
pub(crate) fn utf16_lossy(words: &[u16]) -> (s: String)
    ensures
        s@ == utf16_lossy_of(words@),
        words@.len() == 0 ==> s@.len() == 0,
{
    String::from_utf16_lossy(words)
}

} // verus!
