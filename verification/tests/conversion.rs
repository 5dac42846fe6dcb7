use huh::decode::png_to_huh_bytes;
use huh::encode::encode_huh;
use huh::pixmap::Pixmap;

/// Encodes an RGB image as PNG bytes, in memory.
fn png_bytes_rgb(width: u32, height: u32, pixels: &[(u8, u8, u8)]) -> Vec<u8> {
    let mut img = image::RgbImage::new(width, height);
    for y in 0..height {
        for x in 0..width {
            let (r, g, b) = pixels[(y * width + x) as usize];
            img.put_pixel(x, y, image::Rgb([r, g, b]));
        }
    }
    let mut buf: Vec<u8> = Vec::new();
    img.write_to(&mut std::io::Cursor::new(&mut buf), image::ImageFormat::Png)
        .unwrap();
    buf
}

/// Encodes an RGBA image as PNG bytes, in memory.
fn png_bytes_rgba(width: u32, height: u32, pixels: &[(u8, u8, u8, u8)]) -> Vec<u8> {
    let mut img = image::RgbaImage::new(width, height);
    for y in 0..height {
        for x in 0..width {
            let (r, g, b, a) = pixels[(y * width + x) as usize];
            img.put_pixel(x, y, image::Rgba([r, g, b, a]));
        }
    }
    let mut buf: Vec<u8> = Vec::new();
    img.write_to(&mut std::io::Cursor::new(&mut buf), image::ImageFormat::Png)
        .unwrap();
    buf
}

#[test]
fn encode_1x1_white_exact_bytes() {
    let img = Pixmap::new(1, 1, vec![(255, 255, 255)]);
    let out = encode_huh(&img);
    assert_eq!(out, vec![1, 0, 0, 0, 1, 0, 0, 0, 255, 255, 255]);
}

#[test]
fn encode_header_is_little_endian() {
    // width 258 = 0x0102, height 16_777_473 = 0x0100_0101
    let img = Pixmap::new(258, 0, vec![]);
    let out = encode_huh(&img);
    assert_eq!(out, vec![2, 1, 0, 0, 0, 0, 0, 0]);
    let img = Pixmap::new(0, 16_777_473, vec![]);
    let out = encode_huh(&img);
    assert_eq!(out, vec![0, 0, 0, 0, 1, 1, 0, 1]);
}

#[test]
fn encode_length_formula() {
    // 3 wide, 2 high: 8 + 3 * 3 * 2 = 26 bytes.
    let pixels = vec![(0, 0, 0); 6];
    let img = Pixmap::new(3, 2, pixels);
    let out = encode_huh(&img);
    assert_eq!(out.len(), 26);
}

#[test]
fn encode_pixel_offsets_row_major() {
    // 3 wide, 2 high, every pixel distinct.
    let pixels: Vec<(u8, u8, u8)> = (0u8..6)
        .map(|i| (10 * i, 10 * i + 1, 10 * i + 2))
        .collect();
    let img = Pixmap::new(3, 2, pixels.clone());
    let out = encode_huh(&img);
    for r in 0..2u32 {
        for c in 0..3u32 {
            let i = (r * 3 + c) as usize;
            let off = 8 + 3 * i;
            assert_eq!(out[off], pixels[i].0);
            assert_eq!(out[off + 1], pixels[i].1);
            assert_eq!(out[off + 2], pixels[i].2);
        }
    }
}

#[test]
fn convert_1x1_white_png() {
    let png = png_bytes_rgb(1, 1, &[(255, 255, 255)]);
    let out = png_to_huh_bytes(&png).unwrap();
    assert_eq!(out, vec![1, 0, 0, 0, 1, 0, 0, 0, 255, 255, 255]);
}

#[test]
fn convert_2x2_png_full_layout() {
    let pixels = [(9, 8, 7), (1, 2, 3), (200, 100, 50), (0, 255, 0)];
    let png = png_bytes_rgb(2, 2, &pixels);
    let out = png_to_huh_bytes(&png).unwrap();
    let mut expected: Vec<u8> = vec![2, 0, 0, 0, 2, 0, 0, 0];
    for (r, g, b) in pixels {
        expected.push(r);
        expected.push(g);
        expected.push(b);
    }
    assert_eq!(out, expected);
}

#[test]
fn alpha_channel_is_dropped() {
    let transparent_red = png_bytes_rgba(1, 1, &[(255, 0, 0, 0)]);
    let opaque_red = png_bytes_rgba(1, 1, &[(255, 0, 0, 255)]);
    let out_transparent = png_to_huh_bytes(&transparent_red).unwrap();
    let out_opaque = png_to_huh_bytes(&opaque_red).unwrap();
    assert_eq!(out_transparent, out_opaque);
    assert_eq!(out_opaque, vec![1, 0, 0, 0, 1, 0, 0, 0, 255, 0, 0]);
}

#[test]
fn malformed_png_is_an_error() {
    let garbage: Vec<u8> = b"this is not a png".to_vec();
    assert!(png_to_huh_bytes(&garbage).is_err());
    let empty: Vec<u8> = Vec::new();
    assert!(png_to_huh_bytes(&empty).is_err());
    // A PNG signature with a truncated body decodes to an error, not a panic.
    let truncated: Vec<u8> = vec![0x89, b'P', b'N', b'G', 0x0d, 0x0a, 0x1a, 0x0a, 0, 0];
    assert!(png_to_huh_bytes(&truncated).is_err());
}
