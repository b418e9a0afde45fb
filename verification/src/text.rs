use vstd::prelude::*;
use vstd::slice::slice_to_vec;
use vstd::utf8::{decode_utf8, valid_utf8};

verus! {

/// The text that bytes stand for in ISO 8859-1: each byte is the character
/// with that code point.
pub open spec fn latin1_text(bytes: Seq<u8>) -> Seq<char> {
    Seq::new(bytes.len(), |i: int| bytes[i] as char)
}

/// The name that the bytes of a network name element stand for: their
/// reading as UTF-8 where they are valid UTF-8, else their reading as
/// ISO 8859-1. Every run of bytes has a name.
pub open spec fn ssid_text(bytes: Seq<u8>) -> Option<Seq<char>> {
    if valid_utf8(bytes) {
        Some(decode_utf8(bytes))
    } else {
        Some(latin1_text(bytes))
    }
}

/// The characters of a text that may be missing.
pub open spec fn text_view(text: Option<String>) -> Option<Seq<char>> {
    match text {
        Some(s) => Some(s@),
        None => None,
    }
}

/// Calls `String::from_utf8` and drops the error. Trusted: the call
/// succeeds exactly on valid UTF-8, and the string holds the characters
/// that the bytes encode.
#[verifier::external_body]
fn string_from_utf8(bytes: Vec<u8>) -> (r: Option<String>)
    ensures
        r is Some <==> valid_utf8(bytes@),
        r is Some ==> r->Some_0@ == decode_utf8(bytes@),
{
    String::from_utf8(bytes).ok()
}

/// Calls `decode` of `encoding::all::ISO_8859_1` with the strict trap and
/// drops the error. Trusted: the decoder maps each byte to the character
/// with that code point and refuses none.
#[verifier::external_body]
fn decode_latin1(data: &[u8]) -> (r: Option<String>)
    ensures
        r is Some,
        r->Some_0@ == latin1_text(data@),
{
    encoding::Encoding::decode(encoding::all::ISO_8859_1, data, encoding::DecoderTrap::Strict).ok()
}

/// Reads a network name: as UTF-8 first, as ISO 8859-1 where that fails.
pub fn decode_ssid(data: &[u8]) -> (r: Option<String>)
    ensures
        text_view(r) == ssid_text(data@),
{
    match string_from_utf8(slice_to_vec(data)) {
        Some(name) => Some(name),
        None => decode_latin1(data),
    }
}

} // verus!
