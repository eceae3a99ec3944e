//! The output artifact of an iteration: a row-major image of four 8-bit
//! channels per pixel.

use vstd::prelude::*;

verus! {

/// Bytes per pixel: red, green, blue, alpha.
pub const CHANNELS: usize = 4;

pub struct Frame {
    width: u32,
    height: u32,
    pixels: Vec<u8>,
}

impl Frame {
    pub closed spec fn spec_width(&self) -> u32 {
        self.width
    }

    pub closed spec fn spec_height(&self) -> u32 {
        self.height
    }

    pub closed spec fn spec_pixels(&self) -> Seq<u8> {
        self.pixels@
    }

    /// A frame of `width` x `height` pixels, when `pixels` holds exactly
    /// `width * height * 4` bytes.
    pub fn from_rgba8(width: u32, height: u32, pixels: Vec<u8>) -> (r: Option<Frame>)
        ensures
            r is Some <==> pixels@.len() == width as int * height as int * CHANNELS as int,
            r matches Some(f) ==> f.spec_width() == width && f.spec_height() == height && f.spec_pixels() == pixels@,
    {
        let n = pixels.len();
        let w = width as usize;
        let h = height as usize;
        let area = match w.checked_mul(h) {
            Some(a) => a,
            None => {
                proof {
                    assert(w as int * h as int * 4 > usize::MAX) by (nonlinear_arith)
                        requires w as int * h as int > usize::MAX;
                }
                return None;
            }
        };
        let bytes = match area.checked_mul(CHANNELS) {
            Some(b) => b,
            None => return None,
        };
        if n != bytes {
            return None;
        }
        Some(Frame { width, height, pixels })
    }

    /// The reported image dimensions: (width, height).
    pub fn dimensions(&self) -> (r: (u32, u32))
        ensures
            r == (self.spec_width(), self.spec_height()),
    {
        (self.width, self.height)
    }

    pub fn pixels(&self) -> (r: &[u8])
        ensures
            r@ == self.spec_pixels(),
    {
        self.pixels.as_slice()
    }
}

} // verus!
