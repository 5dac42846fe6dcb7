//! Conversion of PNG images to the HUH format: a flat byte stream holding a
//! 4-byte width, a 4-byte height (both little-endian), and the raw RGB pixel
//! data, row-major, three bytes per pixel, with no padding or compression.

pub mod decode;
pub mod encode;
pub mod pixmap;
