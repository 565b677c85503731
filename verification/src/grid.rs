use vstd::prelude::*;

verus! {

/// One pixel of a decoded image, 8-bit RGB channels; alpha is dropped when
/// the pixel buffer is built.
#[derive(Clone, Copy, PartialEq, Eq, Structural, Debug)]
pub struct Pixel {
    pub r: u8,
    pub g: u8,
    pub b: u8,
}

/// A decoded, resized image held as plain values: `width * height` pixels in
/// row-major order. It is derived from the raw bytes and discarded after
/// color extraction; it is never cached.
#[derive(Debug)]
pub struct PixelGrid {
    pub width: u32,
    pub height: u32,
    pub pixels: Vec<Pixel>,
}

impl PixelGrid {
    /// Well-formed: the buffer holds exactly one pixel per grid cell, and
    /// the pixel count is small enough that a channel sum (at most 255 per
    /// pixel) fits a 64-bit accumulator with headroom.
    pub open spec fn wf(self) -> bool {
        self.pixels@.len() == self.width as nat * self.height as nat
            && self.pixels@.len() <= u32::MAX
    }

    /// Builds a grid after checking that the buffer matches the dimensions
    /// and that the pixel count stays within the accumulator headroom.
    pub fn new(width: u32, height: u32, pixels: Vec<Pixel>) -> (r: Option<PixelGrid>)
        ensures
            match r {
                Some(g) => g.wf() && g.width == width && g.height == height && g.pixels@
                    == pixels@,
                None => !(pixels@.len() == width as nat * height as nat && pixels@.len()
                    <= u32::MAX),
            },
    {
        proof {
            assert((width as int) * (height as int) <= (u32::MAX as int) * (u32::MAX as int))
                by (nonlinear_arith)
                requires
                    0 <= width as int <= u32::MAX as int,
                    0 <= height as int <= u32::MAX as int,
            ;
        }
        let count: u64 = (width as u64) * (height as u64);
        if pixels.len() as u64 == count && count <= u32::MAX as u64 {
            Some(PixelGrid { width, height, pixels })
        } else {
            None
        }
    }
}

} // verus!
