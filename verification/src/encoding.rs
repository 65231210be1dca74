//! Encoding helpers the core leans on: standard base64 for image payloads
//! and strict UTF-8 decoding for text form fields.

use vstd::prelude::*;
use vstd::utf8::{decode_utf8, valid_utf8};
use base64::prelude::BASE64_STANDARD;
use base64::Engine;

verus! {

/// The standard base64 rendering (with padding) of a byte sequence.  The
/// alphabet table is left unstated; the encoding depends on the bytes alone.
pub uninterp spec fn base64_of(bytes: Seq<u8>) -> Seq<char>;

/// Relies on base64's `STANDARD` engine: `encode` renders the bytes with the
/// fixed standard alphabet and padding, a function of the input alone.
#[verifier::external_body]
pub fn base64_encode(bytes: &Vec<u8>) -> (r: String)
    ensures
        r@ == base64_of(bytes@),
{
    BASE64_STANDARD.encode(bytes.as_slice())
}

/// Relies on `std::str::from_utf8`: it succeeds exactly on valid UTF-8 and
/// returns the decoded characters, stated over vstd's UTF-8 model.
#[verifier::external_body]
pub fn utf8_decode(bytes: &Vec<u8>) -> (r: Option<String>)
    ensures
        r is Some <==> valid_utf8(bytes@),
        r matches Some(s) ==> s@ == decode_utf8(bytes@),
{
    match std::str::from_utf8(bytes.as_slice()) {
        Ok(s) => Some(s.to_owned()),
        Err(_) => None,
    }
}

} // verus!
