//! Fixed-capacity strings and UTF-8 text.

use vstd::prelude::*;
use vstd::utf8::{decode_utf8, encode_utf8, valid_utf8};

verus! {

#[verifier::external_type_specification]
#[verifier::external_body]
pub struct ExHeaplessString<const N: usize>(heapless::String<N>);

/// The characters held by a string of up to 64 bytes.
pub uninterp spec fn string64_chars(s: heapless::String<64>) -> Seq<char>;

/// `core::str::from_utf8`: succeeds exactly on well-formed UTF-8, with the text that the
/// bytes encode.
#[verifier::external_body]
pub(crate) fn utf8_text(bytes: &[u8]) -> (text: Option<&str>)
    ensures
        text is Some <==> valid_utf8(bytes@),
        text matches Some(s) ==> s@ == decode_utf8(bytes@),
{
    core::str::from_utf8(bytes).ok()
}

/// `heapless::String::<64>::try_from`: holds the characters of `text`, or fails when their
/// UTF-8 encoding takes more than 64 bytes.
#[verifier::external_body]
pub(crate) fn string64_try_from(text: &str) -> (res: Result<heapless::String<64>, ()>)
    ensures
        res is Ok <==> encode_utf8(text@).len() <= 64,
        res matches Ok(s) ==> string64_chars(s) == text@,
{
    heapless::String::try_from(text)
}

/// `heapless::String::<64>::as_str`: the characters that the string holds.
#[verifier::external_body]
pub(crate) fn string64_as_str(s: &heapless::String<64>) -> (text: &str)
    ensures
        text@ == string64_chars(*s),
{
    s.as_str()
}

/// `heapless::String::<64>::clone`: a string with the same characters.
#[verifier::external_body]
pub(crate) fn string64_clone(s: &heapless::String<64>) -> (res: heapless::String<64>)
    ensures
        string64_chars(res) == string64_chars(*s),
{
    s.clone()
}

/// The characters held by a string of up to 16 bytes.
pub uninterp spec fn string16_chars(s: heapless::String<16>) -> Seq<char>;

/// `heapless::String::<16>::new`: a string without characters.
#[verifier::external_body]
pub(crate) fn string16_new() -> (res: heapless::String<16>)
    ensures
        string16_chars(res) == Seq::<char>::empty(),
{
    heapless::String::new()
}

/// `heapless::String::<16>::push`: appends the character, or fails and leaves the string as it
/// is when the UTF-8 encoding of the characters would take more than 16 bytes.
#[verifier::external_body]
pub(crate) fn string16_push(s: &mut heapless::String<16>, c: char) -> (res: Result<(), ()>)
    ensures
        res is Ok <==> encode_utf8(string16_chars(*old(s)).push(c)).len() <= 16,
        string16_chars(*final(s)) == (if res is Ok {
            string16_chars(*old(s)).push(c)
        } else {
            string16_chars(*old(s))
        }),
{
    s.push(c)
}

/// `heapless::String::<16>::as_str`: the characters that the string holds.
#[verifier::external_body]
pub(crate) fn string16_as_str(s: &heapless::String<16>) -> (text: &str)
    ensures
        text@ == string16_chars(*s),
{
    s.as_str()
}

/// The characters held by a string of up to 32 bytes.
pub uninterp spec fn string32_chars(s: heapless::String<32>) -> Seq<char>;

/// `heapless::String::<32>::try_from`: holds the characters of `text`, or fails when their
/// UTF-8 encoding takes more than 32 bytes.
#[verifier::external_body]
pub(crate) fn string32_try_from(text: &str) -> (res: Result<heapless::String<32>, ()>)
    ensures
        res is Ok <==> encode_utf8(text@).len() <= 32,
        res matches Ok(s) ==> string32_chars(s) == text@,
{
    heapless::String::try_from(text)
}

/// `heapless::String::<32>::as_str`: the characters that the string holds, whose UTF-8 encoding
/// takes 32 bytes at most.
#[verifier::external_body]
pub(crate) fn string32_as_str(s: &heapless::String<32>) -> (text: &str)
    ensures
        text@ == string32_chars(*s),
        encode_utf8(text@).len() <= 32,
{
    s.as_str()
}

/// `heapless::String::<32>::clone`: a string with the same characters.
#[verifier::external_body]
pub(crate) fn string32_clone(s: &heapless::String<32>) -> (res: heapless::String<32>)
    ensures
        string32_chars(res) == string32_chars(*s),
{
    s.clone()
}

} // verus!
