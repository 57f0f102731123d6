//! Conversion of a downloaded JPEG body to the uncompressed bitmap the
//! desktop API accepts.
//!
//! The image work itself is the image crate's; this module states what that
//! work returns. Decoding depends on the bytes alone, so the decoded
//! dimensions and the bitmap re-encoding are each given a name, and the
//! contracts speak through those names: a body behind the JPEG gate that
//! decodes at all converts, and whenever the bitmap that comes back decodes —
//! which it does for every image within the decoders' allocation limit — it
//! decodes to exactly the source image's width and height.

use crate::fetch::{is_jpeg, is_jpeg_bytes};
use vstd::prelude::*;

verus! {

/// The width and height a byte string decodes to, or nothing when the bytes
/// are not a decodable image. What image::load_from_memory yields.
pub uninterp spec fn decoded_dims(bytes: Seq<u8>) -> Option<(u32, u32)>;

/// The bitmap re-encoding of the image a byte string decodes to. What
/// decoding and re-encoding with the bitmap format yields.
pub uninterp spec fn bmp_encoding(bytes: Seq<u8>) -> Seq<u8>;

/// Dimensions small enough that a decode stays within the image reader's
/// fixed allocation limit of 512 MiB whatever color type the decoders
/// produce: no decoder here yields more than four bytes per pixel.
pub open spec fn dims_within_decode_limit(d: (u32, u32)) -> bool {
    4 * (d.0 as nat) * (d.1 as nat) <= 536870912
}

/// Why a conversion ends the current refresh: the downloaded body could not
/// be decoded and re-encoded — it is corrupt despite its leading marker, or
/// never carried one. Such a body is surfaced here, never re-fetched.
#[derive(PartialEq, Eq, Structural, Clone, Copy, Debug)]
pub enum ConvertError {
    ConversionFailed,
}

/// Relies on image::load_from_memory: whether a byte string decodes, and to
/// what width and height, depends on those bytes alone.
#[verifier::external_body]
fn decode_dimensions(bytes: &Vec<u8>) -> (r: Option<(u32, u32)>)
    ensures
        r == decoded_dims(bytes@),
{
    match image::load_from_memory(bytes.as_slice()) {
        Ok(img) => Some((img.width(), img.height())),
        Err(_) => None,
    }
}

/// Relies on image::load_from_memory followed by DynamicImage::write_to with
/// ImageFormat::Bmp: both depend on the input bytes alone. A body behind the
/// JPEG gate decodes, when it decodes at all, as a JPEG; write_to converts
/// any decoded image to a color type the bitmap encoder takes, within the
/// reader's allocation limit the encoder's size arithmetic cannot overflow,
/// and the in-memory write cannot fail, so conversion succeeds exactly when
/// the body decodes. The bitmap header carries the width and height, which a
/// JPEG's 16-bit dimension fields keep within the bitmap decoder's bounds, so
/// the re-encoded bytes decode back to the same dimensions whenever they
/// decode at all. They need not: the reader caps every decode's allocation at
/// 512 MiB, and reading a palettized bitmap back expands it to three bytes
/// per pixel where a grayscale source decoded at one, so a large enough
/// source decodes while its re-encoding does not. Within four bytes per pixel
/// of the cap — every color type the decoders produce — both decodes fit and
/// the dimensions round-trip unconditionally.
#[verifier::external_body]
fn reencode_as_bmp(bytes: &Vec<u8>) -> (r: Option<Vec<u8>>)
    requires
        is_jpeg_bytes(bytes@),
    ensures
        r matches Some(b) ==> {
            &&& b@ == bmp_encoding(bytes@)
            &&& (decoded_dims(b@) is Some ==> decoded_dims(b@) == decoded_dims(bytes@))
            &&& (decoded_dims(bytes@) matches Some(d) && dims_within_decode_limit(d)
                ==> decoded_dims(b@) == decoded_dims(bytes@))
        },
        r is Some <==> decoded_dims(bytes@) is Some,
{
    let img = match image::load_from_memory(bytes.as_slice()) {
        Ok(img) => img,
        Err(_) => return None,
    };
    let mut cursor = std::io::Cursor::new(Vec::new());
    match img.write_to(&mut cursor, image::ImageFormat::Bmp) {
        Ok(()) => Some(cursor.into_inner()),
        Err(_) => None,
    }
}

/// The dimensions of the image a byte string holds, if it holds one.
pub fn image_dimensions(bytes: &Vec<u8>) -> (r: Option<(u32, u32)>)
    ensures
        r == decoded_dims(bytes@),
{
    decode_dimensions(bytes)
}

/// Converts a downloaded body to the bitmap handed to the desktop API.
/// Conversion succeeds exactly when the body carries the JPEG marker and
/// decodes, and it keeps the pixel dimensions: whenever the bitmap that comes
/// back decodes, it decodes to exactly the source image's width and height,
/// and for any source within the decoders' allocation limit it does decode.
/// A body that does not decode — corrupt despite its leading marker — is a
/// terminal error for this refresh.
pub fn convert_to_bmp(jpeg: &Vec<u8>) -> (r: Result<Vec<u8>, ConvertError>)
    ensures
        r matches Ok(b) ==> {
            &&& b@ == bmp_encoding(jpeg@)
            &&& (decoded_dims(b@) is Some ==> decoded_dims(b@) == decoded_dims(jpeg@))
            &&& (decoded_dims(jpeg@) matches Some(d) && dims_within_decode_limit(d)
                ==> decoded_dims(b@) == decoded_dims(jpeg@))
        },
        r is Ok <==> is_jpeg_bytes(jpeg@) && decoded_dims(jpeg@) is Some,
{
    if !is_jpeg(jpeg) {
        return Err(ConvertError::ConversionFailed);
    }
    match reencode_as_bmp(jpeg) {
        Some(b) => Ok(b),
        None => Err(ConvertError::ConversionFailed),
    }
}

} // verus!
