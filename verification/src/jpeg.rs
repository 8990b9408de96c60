//! JPEG decoding, through the `image` crate.

use vstd::prelude::*;
use crate::events::DecodedImage;

verus! {

/// What decoding a byte sequence as a JPEG image into tightly packed RGBA
/// rows yields: `None` exactly when the bytes are not a valid JPEG image.
/// Decoding is a function of the bytes alone.
pub uninterp spec fn jpeg_decoding(bytes: Seq<u8>) -> Option<DecodedImage>;

/// Relies on `image::load` with `ImageFormat::Jpeg`: it decodes the given
/// bytes and nothing else, succeeding exactly on valid JPEG input; and on
/// `DynamicImage::to_rgba8`, whose buffer holds exactly four bytes per pixel
/// of the decoded image's `width * height` pixels.
#[verifier::external_body]
pub(crate) fn decode_jpeg(bytes: &Vec<u8>) -> (r: Option<DecodedImage>)
    ensures
        r == jpeg_decoding(bytes@),
        r matches Some(img) ==> img.wf(),
{
    match image::load(std::io::Cursor::new(bytes.as_slice()), image::ImageFormat::Jpeg) {
        Ok(decoded) => {
            let rgba = decoded.to_rgba8();
            let width = rgba.width();
            let height = rgba.height();
            Some(DecodedImage { width, height, pixels: rgba.into_raw() })
        }
        Err(_) => None,
    }
}

} // verus!
