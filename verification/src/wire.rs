//! Texts on the wire, written and read by the `borsh` crate.
//!
//! The contracts in this module are not proved: they restate what `borsh`
//! does with a `String`.

use crate::layout::{is_text_encoding, text_encoding, text_fits};
use vstd::prelude::*;
use vstd::utf8::encode_utf8;

verus! {

/// `std::io::Error`, the error of `borsh` where `std` is in use. Nothing is
/// known of its contents.
#[verifier::external_type_specification]
#[verifier::external_body]
pub struct ExIoError(std::io::Error);

/// `borsh::to_vec` on a `String`.
///
/// `borsh` writes the byte length of the string as a `u32`, little-endian,
/// and then the bytes of the string. It fails exactly when the length does
/// not fit a `u32`.
#[verifier::external_body]
pub(crate) fn text_to_vec(text: &String) -> (out: Result<Vec<u8>, std::io::Error>)
    ensures
        out is Ok <==> text_fits(text@),
        out matches Ok(bytes) ==> bytes@ == text_encoding(text@),
{
    borsh::to_vec(text)
}

/// `borsh::from_slice` for a `String`.
///
/// `borsh` reads a `u32`, little-endian, then that many bytes, and checks
/// that they are UTF-8. It fails where the slice is cut short, where the
/// bytes are not UTF-8 and where bytes are left over; it returns an error
/// then and does not panic. On success the bytes of the string are the ones
/// that follow the length.
#[verifier::external_body]
pub(crate) fn text_from_slice(bytes: &[u8]) -> (out: Result<String, std::io::Error>)
    ensures
        out is Ok <==> is_text_encoding(bytes@),
        out matches Ok(text) ==> encode_utf8(text@) == bytes@.subrange(4, bytes@.len() as int),
{
    borsh::from_slice::<String>(bytes)
}

} // verus!
