//! The decoded-image data model: dimensions and a row-major RGB pixel buffer.

use vstd::prelude::*;

verus! {

/// A decoded raster image: `width` columns, `height` rows, and the pixels in
/// row-major order, each a `(red, green, blue)` triple of 8-bit channels.
pub struct Pixmap {
    pub width: u32,
    pub height: u32,
    pub pixels: Vec<(u8, u8, u8)>,
}

impl Pixmap {
    /// A pixmap is well formed when it holds exactly one pixel per cell of the
    /// `width` by `height` grid.
    pub open spec fn wf(&self) -> bool {
        self.pixels@.len() == self.width as int * self.height as int
    }

    /// Builds a pixmap from its parts.
    pub fn new(width: u32, height: u32, pixels: Vec<(u8, u8, u8)>) -> (r: Pixmap)
        requires
            pixels@.len() == width as int * height as int,
        ensures
            r.wf(),
            r.width == width,
            r.height == height,
            r.pixels@ == pixels@,
    {
        Pixmap { width, height, pixels }
    }
}

} // verus!
