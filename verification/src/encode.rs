//! The HUH byte layout and the verified encoder.
//!
//! A HUH buffer is the width as a 4-byte little-endian unsigned integer, the
//! height likewise, and then three bytes (red, green, blue) for each pixel in
//! row-major order: `8 + 3 * width * height` bytes in all.

use vstd::prelude::*;

use crate::pixmap::Pixmap;

verus! {

/// The four bytes of `x` in little-endian order.
pub open spec fn u32_le_bytes(x: u32) -> Seq<u8> {
    seq![
        (x & 0xff) as u8,
        ((x >> 8) & 0xff) as u8,
        ((x >> 16) & 0xff) as u8,
        ((x >> 24) & 0xff) as u8,
    ]
}

/// The unsigned integer that four bytes hold in little-endian order.
pub open spec fn u32_of_le_bytes(b: Seq<u8>) -> int
    recommends
        b.len() == 4,
{
    b[0] + 0x100 * b[1] + 0x1_0000 * b[2] + 0x100_0000 * b[3]
}

/// The pixel payload: three bytes per pixel, in pixel order.
pub open spec fn pixel_bytes(pixels: Seq<(u8, u8, u8)>) -> Seq<u8>
    decreases pixels.len(),
{
    if pixels.len() == 0 {
        Seq::<u8>::empty()
    } else {
        pixel_bytes(pixels.drop_last())
            + seq![pixels.last().0, pixels.last().1, pixels.last().2]
    }
}

/// The whole HUH buffer for an image of the given dimensions and pixels.
pub open spec fn huh_bytes(width: u32, height: u32, pixels: Seq<(u8, u8, u8)>) -> Seq<u8> {
    u32_le_bytes(width) + u32_le_bytes(height) + pixel_bytes(pixels)
}

/// The pixel payload holds exactly three bytes per pixel.
pub proof fn lemma_pixel_bytes_len(pixels: Seq<(u8, u8, u8)>)
    ensures
        pixel_bytes(pixels).len() == 3 * pixels.len(),
    decreases pixels.len(),
{
    if pixels.len() > 0 {
        lemma_pixel_bytes_len(pixels.drop_last());
    }
}

/// A HUH buffer for a well-formed image of `width` by `height` pixels is
/// exactly `8 + 3 * width * height` bytes long.
pub proof fn lemma_huh_bytes_len(width: u32, height: u32, pixels: Seq<(u8, u8, u8)>)
    requires
        pixels.len() == width as int * height as int,
    ensures
        huh_bytes(width, height, pixels).len() == 8 + 3 * (width as int) * (height as int),
{
    lemma_pixel_bytes_len(pixels);
    assert(3 * (width as int * height as int) == 3 * (width as int) * (height as int))
        by (nonlinear_arith);
}

/// Little-endian serialization of a 32-bit integer loses nothing: the four
/// bytes, read back in little-endian order, give the integer again.
pub proof fn lemma_u32_le_round_trip(x: u32)
    ensures
        u32_of_le_bytes(u32_le_bytes(x)) == x,
{
    assert((x & 0xff) < 0x100 && ((x >> 8) & 0xff) < 0x100 && ((x >> 16) & 0xff) < 0x100
        && ((x >> 24) & 0xff) < 0x100) by (bit_vector);
    assert((x & 0xff) + 0x100 * ((x >> 8) & 0xff) + 0x1_0000 * ((x >> 16) & 0xff)
        + 0x100_0000 * ((x >> 24) & 0xff) == x) by (bit_vector);
}

/// The first four bytes of a HUH buffer hold the width and the next four the
/// height, each as a little-endian unsigned 32-bit integer.
pub proof fn lemma_huh_bytes_header(width: u32, height: u32, pixels: Seq<(u8, u8, u8)>)
    ensures
        u32_of_le_bytes(huh_bytes(width, height, pixels).subrange(0, 4)) == width,
        u32_of_le_bytes(huh_bytes(width, height, pixels).subrange(4, 8)) == height,
{
    let buf = huh_bytes(width, height, pixels);
    assert(buf.subrange(0, 4) =~= u32_le_bytes(width));
    assert(buf.subrange(4, 8) =~= u32_le_bytes(height));
    lemma_u32_le_round_trip(width);
    lemma_u32_le_round_trip(height);
}

/// The three bytes at position `3 * i` of the pixel payload are the channels
/// of pixel `i`, red then green then blue.
pub proof fn lemma_pixel_bytes_index(pixels: Seq<(u8, u8, u8)>, i: int)
    requires
        0 <= i < pixels.len(),
    ensures
        pixel_bytes(pixels)[3 * i] == pixels[i].0,
        pixel_bytes(pixels)[3 * i + 1] == pixels[i].1,
        pixel_bytes(pixels)[3 * i + 2] == pixels[i].2,
    decreases pixels.len(),
{
    lemma_pixel_bytes_len(pixels);
    lemma_pixel_bytes_len(pixels.drop_last());
    if i < pixels.len() - 1 {
        lemma_pixel_bytes_index(pixels.drop_last(), i);
    }
}

/// In a HUH buffer for a well-formed image, the pixel of row `r` and column
/// `c` (both 0-indexed) stands at offset `8 + 3 * (r * width + c)`, its red,
/// green and blue bytes in that order.
pub proof fn lemma_huh_bytes_pixel(
    width: u32,
    height: u32,
    pixels: Seq<(u8, u8, u8)>,
    r: int,
    c: int,
)
    requires
        pixels.len() == width as int * height as int,
        0 <= r < height,
        0 <= c < width,
    ensures
        huh_bytes(width, height, pixels)[8 + 3 * (r * width + c)] == pixels[r * width + c].0,
        huh_bytes(width, height, pixels)[8 + 3 * (r * width + c) + 1] == pixels[r * width + c].1,
        huh_bytes(width, height, pixels)[8 + 3 * (r * width + c) + 2] == pixels[r * width + c].2,
{
    let w = width as int;
    let h = height as int;
    assert(0 <= r * w + c < w * h) by (nonlinear_arith)
        requires
            0 <= r < h,
            0 <= c < w,
    ;
    let i = r * w + c;
    lemma_pixel_bytes_len(pixels);
    lemma_pixel_bytes_index(pixels, i);
    let buf = huh_bytes(width, height, pixels);
    assert(buf[8 + 3 * i] == pixel_bytes(pixels)[3 * i]);
    assert(buf[8 + 3 * i + 1] == pixel_bytes(pixels)[3 * i + 1]);
    assert(buf[8 + 3 * i + 2] == pixel_bytes(pixels)[3 * i + 2]);
}

/// Appends the four little-endian bytes of `x`.
fn push_u32_le(out: &mut Vec<u8>, x: u32)
    ensures
        final(out)@ == old(out)@ + u32_le_bytes(x),
{
    let ghost pre = out@;
    out.push((x & 0xff) as u8);
    out.push(((x >> 8) & 0xff) as u8);
    out.push(((x >> 16) & 0xff) as u8);
    out.push(((x >> 24) & 0xff) as u8);
    assert(out@ =~= pre + u32_le_bytes(x));
}

/// Serializes a well-formed pixmap into the HUH byte layout.
pub fn encode_huh(img: &Pixmap) -> (out: Vec<u8>)
    requires
        img.wf(),
    ensures
        out@ == huh_bytes(img.width, img.height, img.pixels@),
{
    let mut out: Vec<u8> = Vec::new();
    push_u32_le(&mut out, img.width);
    push_u32_le(&mut out, img.height);
    let ghost header = u32_le_bytes(img.width) + u32_le_bytes(img.height);
    assert(out@ =~= header);
    let mut i: usize = 0;
    while i < img.pixels.len()
        invariant
            i <= img.pixels@.len(),
            out@ == header + pixel_bytes(img.pixels@.take(i as int)),
        decreases img.pixels@.len() - i,
    {
        let p = img.pixels[i];
        out.push(p.0);
        out.push(p.1);
        out.push(p.2);
        i = i + 1;
        proof {
            let taken = img.pixels@.take(i as int);
            assert(taken.drop_last() =~= img.pixels@.take(i as int - 1));
            assert(out@ =~= header + pixel_bytes(taken));
        }
    }
    proof {
        assert(img.pixels@.take(img.pixels@.len() as int) =~= img.pixels@);
    }
    out
}

} // verus!
