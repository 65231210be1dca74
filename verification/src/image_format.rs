//! Image-format sniffing: a byte sequence is accepted exactly when its
//! leading magic bytes are the PNG signature.  Every other well-formed
//! format, and every undetectable payload, is rejected as an invalid image.

use vstd::prelude::*;
use crate::error::{invalid_image_format_error, spec_invalid_image_format_error, AppError};

verus! {

/// The eight magic bytes that open every PNG file.
pub open spec fn is_png_signature(bytes: Seq<u8>) -> bool {
    &&& bytes.len() >= 8
    &&& bytes[0] == 0x89u8
    &&& bytes[1] == 0x50u8
    &&& bytes[2] == 0x4eu8
    &&& bytes[3] == 0x47u8
    &&& bytes[4] == 0x0du8
    &&& bytes[5] == 0x0au8
    &&& bytes[6] == 0x1au8
    &&& bytes[7] == 0x0au8
}

/// What sniffing a payload's magic bytes can conclude.
#[derive(Debug, PartialEq, Eq, Clone, Copy)]
pub enum SniffedFormat {
    /// The payload opens with the PNG signature.
    Png,
    /// A well-formed header of some other known format was recognized.
    OtherFormat,
    /// No known format could be detected at all.
    Undetermined,
}

/// Whether the sniffer recognizes some non-PNG format in these bytes.  The
/// magic-byte table behind this covers many formats; its exact content is
/// left unstated and only its determinism is relied upon.
pub uninterp spec fn matches_other_format(bytes: Seq<u8>) -> bool;

/// Relies on `image::guess_format`: it walks a fixed magic-byte table whose
/// first entry is the PNG signature, so it answers PNG exactly when the bytes
/// start with that signature; any other `Ok` answer means another entry of
/// the table matched, and `Err` means none did.
#[verifier::external_body]
fn sniff_format(bytes: &Vec<u8>) -> (r: SniffedFormat)
    ensures
        r == SniffedFormat::Png <==> is_png_signature(bytes@),
        !is_png_signature(bytes@) ==> (r == SniffedFormat::OtherFormat <==> matches_other_format(
            bytes@,
        )),
        !is_png_signature(bytes@) ==> (r == SniffedFormat::Undetermined
            <==> !matches_other_format(bytes@)),
{
    match image::guess_format(bytes.as_slice()) {
        Ok(image::ImageFormat::Png) => SniffedFormat::Png,
        Ok(_) => SniffedFormat::OtherFormat,
        Err(_) => SniffedFormat::Undetermined,
    }
}

/// Accept a payload exactly when it sniffs as PNG; both a recognized foreign
/// format and an undetectable one come back as the invalid-image-format
/// failure.
pub fn validate_bytes_as_png(image_bytes: &Vec<u8>) -> (r: Result<(), AppError>)
    ensures
        r is Ok <==> is_png_signature(image_bytes@),
        r matches Err(e) ==> e@ == spec_invalid_image_format_error(),
{
    match sniff_format(image_bytes) {
        SniffedFormat::Png => Ok(()),
        SniffedFormat::OtherFormat => Err(invalid_image_format_error()),
        SniffedFormat::Undetermined => Err(invalid_image_format_error()),
    }
}

/// An empty byte sequence is never a PNG: the signature alone is eight bytes.
pub proof fn lemma_empty_is_not_png()
    ensures
        !is_png_signature(Seq::<u8>::empty()),
{
}

} // verus!
