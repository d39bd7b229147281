//! Decoded images as grids of 8-bit colour samples.

use vstd::prelude::*;

verus! {

/// What a pixel grid holds: its size and its samples, row by row, and within a
/// row pixel by pixel, each pixel as red, green, blue.
pub struct GridView {
    pub width: nat,
    pub height: nat,
    pub samples: Seq<u8>,
}

impl GridView {
    /// The number of pixels.
    pub open spec fn area(self) -> nat {
        self.width * self.height
    }

    /// Whether there are exactly three samples for each pixel.
    pub open spec fn well_formed(self) -> bool {
        self.samples.len() == 3 * self.area()
    }

    /// The sample of channel `channel` of the pixel in column `x` of row `y`.
    pub open spec fn sample(self, x: int, y: int, channel: int) -> u8 {
        self.samples[3 * (y * self.width + x) + channel]
    }
}

/// An image of `width` by `height` pixels with three 8-bit samples per pixel.
#[derive(Debug)]
pub struct PixelGrid {
    width: u32,
    height: u32,
    samples: Vec<u8>,
}

impl View for PixelGrid {
    type V = GridView;

    closed spec fn view(&self) -> GridView {
        GridView { width: self.width as nat, height: self.height as nat, samples: self.samples@ }
    }
}

impl PixelGrid {
    #[verifier::type_invariant]
    spec fn three_samples_per_pixel(self) -> bool {
        self.samples.len() == 3 * (self.width * self.height)
    }

    /// The grid of the given size over `samples`, if there are exactly three
    /// samples per pixel.
    pub fn new(width: u32, height: u32, samples: Vec<u8>) -> (out: Option<PixelGrid>)
        ensures
            match out {
                Some(grid) => {
                    &&& samples.len() == 3 * (width * height)
                    &&& grid@ == (GridView {
                        width: width as nat,
                        height: height as nat,
                        samples: samples@,
                    })
                },
                None => samples.len() != 3 * (width * height),
            },
    {
        assert(width * height <= 0xFFFF_FFFF * 0xFFFF_FFFF) by (nonlinear_arith)
            requires
                0 <= width <= 0xFFFF_FFFF,
                0 <= height <= 0xFFFF_FFFF,
        ;
        let area: u64 = (width as u64) * (height as u64);
        let expected: u128 = 3 * (area as u128);
        if samples.len() as u128 == expected {
            Some(PixelGrid { width, height, samples })
        } else {
            None
        }
    }

    /// The number of pixels in a row.
    pub fn width(&self) -> (out: u32)
        ensures
            out == self@.width,
    {
        self.width
    }

    /// The number of rows.
    pub fn height(&self) -> (out: u32)
        ensures
            out == self@.height,
    {
        self.height
    }

    /// The samples in row-major, channel-interleaved order.
    pub fn samples(&self) -> (out: &Vec<u8>)
        ensures
            out@ == self@.samples,
            self@.well_formed(),
    {
        proof {
            use_type_invariant(self);
        }
        &self.samples
    }

    /// Takes the grid apart into width, height and samples.
    pub fn into_parts(self) -> (out: (u32, u32, Vec<u8>))
        ensures
            out.0 == self@.width,
            out.1 == self@.height,
            out.2@ == self@.samples,
            self@.well_formed(),
    {
        proof {
            use_type_invariant(&self);
        }
        (self.width, self.height, self.samples)
    }
}

} // verus!
