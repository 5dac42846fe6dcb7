//! PNG decoding, delegated to the `image` crate, and the full conversion from
//! PNG bytes to a HUH buffer.

use vstd::prelude::*;

use crate::encode::encode_huh;
use crate::encode::huh_bytes;
use crate::pixmap::Pixmap;

verus! {

/// The result of decoding a byte stream as a PNG and converting it to 8-bit
/// RGB: `None` when the bytes are not a well-formed PNG, otherwise the width,
/// the height, and the pixels in row-major order. Decoding is a pure function
/// of the bytes, so the result can be named without being written out.
pub uninterp spec fn png_rgb8(bytes: Seq<u8>) -> Option<(u32, u32, Seq<(u8, u8, u8)>)>;

/// Relies on `image::load_from_memory` and `image::DynamicImage::to_rgb8`:
/// decoding and conversion to 8-bit RGB depend on the input bytes alone; the
/// converted image iterates its pixels row-major, left to right, top to
/// bottom, and holds exactly `width * height` of them.
#[verifier::external_body]
fn decode_png(bytes: &Vec<u8>) -> (r: Result<Pixmap, String>)
    ensures
        match r {
            Ok(img) => png_rgb8(bytes@) == Some((img.width, img.height, img.pixels@))
                && img.wf(),
            Err(_) => png_rgb8(bytes@) is None,
        },
{
    match image::load_from_memory(bytes) {
        Ok(decoded) => {
            let rgb = decoded.to_rgb8();
            let width = rgb.width();
            let height = rgb.height();
            let pixels = rgb.pixels().map(|p| (p.0[0], p.0[1], p.0[2])).collect();
            Ok(Pixmap { width, height, pixels })
        },
        Err(e) => Err(format!("{}", e)),
    }
}

/// Decodes a PNG byte stream and serializes it into the HUH layout: the
/// conversion succeeds exactly when the bytes decode, and the buffer returned
/// is the HUH encoding of the decoded image.
pub fn png_to_huh_bytes(png: &Vec<u8>) -> (r: Result<Vec<u8>, String>)
    ensures
        match r {
            Ok(out) => png_rgb8(png@) matches Some(m)
                && out@ == huh_bytes(m.0, m.1, m.2),
            Err(_) => png_rgb8(png@) is None,
        },
{
    match decode_png(png) {
        Ok(img) => Ok(encode_huh(&img)),
        Err(e) => Err(e),
    }
}

} // verus!
