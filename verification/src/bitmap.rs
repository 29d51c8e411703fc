//! Grayscale bitmaps held as plain values.

use vstd::prelude::*;

verus! {

/// What a bitmap is, mathematically: its dimensions and its pixels, one
/// intensity per pixel, row after row from the top.
pub struct Raster {
    pub width: nat,
    pub height: nat,
    pub pixels: Seq<u8>,
}

impl Raster {
    /// There is exactly one intensity for each pixel.
    pub open spec fn wf(self) -> bool {
        self.pixels.len() == self.width * self.height
    }

    /// The intensity at column `x` of row `y`.
    pub open spec fn pixel(self, x: int, y: int) -> u8
        recommends
            0 <= x < self.width,
            0 <= y < self.height,
    {
        self.pixels[y * self.width + x]
    }
}

/// An 8-bit grayscale image: 0 is black, 255 is white.
#[derive(Debug)]
pub struct Bitmap {
    pub(crate) width: u32,
    pub(crate) height: u32,
    pub(crate) pixels: Vec<u8>,
}

/// Pixel `(x, y)` of an image `width` pixels wide lies inside its buffer.
pub proof fn pixel_index_in_bounds(x: int, y: int, width: int, height: int)
    by (nonlinear_arith)
    requires
        0 <= x < width,
        0 <= y < height,
    ensures
        0 <= y * width <= y * width + x < width * height,
{
}

impl View for Bitmap {
    type V = Raster;

    closed spec fn view(&self) -> Raster {
        Raster { width: self.width as nat, height: self.height as nat, pixels: self.pixels@ }
    }
}

impl Bitmap {
    #[verifier::type_invariant]
    spec fn well_formed(&self) -> bool {
        self.pixels@.len() == self.width * self.height
    }

    /// Builds a bitmap from its dimensions and its pixels in row-major
    /// order. Returns `None` unless there is exactly one byte per pixel.
    pub fn new(width: u32, height: u32, pixels: Vec<u8>) -> (bitmap: Option<Bitmap>)
        ensures
            bitmap is Some <==> pixels@.len() == width * height,
            bitmap matches Some(b) ==> b@ == (Raster {
                width: width as nat,
                height: height as nat,
                pixels: pixels@,
            }),
    {
        assert(width * height <= 0xFFFF_FFFF * 0xFFFF_FFFF) by (nonlinear_arith)
            requires
                0 <= width <= 0xFFFF_FFFF,
                0 <= height <= 0xFFFF_FFFF,
        ;
        let expected: u64 = (width as u64) * (height as u64);
        if pixels.len() as u64 == expected {
            Some(Bitmap { width, height, pixels })
        } else {
            None
        }
    }

    /// The number of pixels in a row.
    pub fn width(&self) -> (width: u32)
        ensures
            width == self@.width,
    {
        self.width
    }

    /// The number of rows.
    pub fn height(&self) -> (height: u32)
        ensures
            height == self@.height,
    {
        self.height
    }

    /// The pixels in row-major order.
    pub fn pixels(&self) -> (pixels: &Vec<u8>)
        ensures
            pixels@ == self@.pixels,
            self@.wf(),
    {
        proof {
            use_type_invariant(self);
        }
        &self.pixels
    }

    /// The intensity at column `x` of row `y`.
    pub fn get_pixel(&self, x: u32, y: u32) -> (intensity: u8)
        requires
            x < self@.width,
            y < self@.height,
        ensures
            intensity == self@.pixel(x as int, y as int),
            self@.wf(),
    {
        proof {
            use_type_invariant(self);
            pixel_index_in_bounds(x as int, y as int, self.width as int, self.height as int);
            assert(self.pixels@.len() == self.pixels.len());
        }
        let row: usize = y as usize * self.width as usize;
        self.pixels[row + x as usize]
    }
}

} // verus!
