//! Colours and single-pixel write requests.

use vstd::prelude::*;

verus! {

/// An RGB colour with 8-bit channels.
#[derive(Clone, Copy, Debug, PartialEq, Eq, Structural)]
pub struct Rgb {
    pub r: u8,
    pub g: u8,
    pub b: u8,
}

/// A request to paint the pixel at `(x, y)` with the colour `(r, g, b)`.
#[derive(Clone, Copy, Debug, PartialEq, Eq, Structural)]
pub struct Pixel {
    pub x: u32,
    pub y: u32,
    pub r: u8,
    pub g: u8,
    pub b: u8,
}

impl Pixel {
    /// The request targets a pixel of a `width` by `height` canvas.
    pub open spec fn within(self, width: nat, height: nat) -> bool {
        self.x < width && self.y < height
    }

    /// The colour the request paints.
    pub open spec fn color(self) -> Rgb {
        Rgb { r: self.r, g: self.g, b: self.b }
    }

    /// Two requests target the same pixel.
    pub open spec fn same_place(self, other: Pixel) -> bool {
        self.x == other.x && self.y == other.y
    }

    /// Tests whether the request targets a pixel of a `width` by `height`
    /// canvas.
    pub fn is_within(&self, width: u32, height: u32) -> (inside: bool)
        ensures
            inside == self.within(width as nat, height as nat),
    {
        self.x < width && self.y < height
    }

    /// The colour the request paints.
    pub fn rgb(&self) -> (color: Rgb)
        ensures
            color == self.color(),
    {
        Rgb { r: self.r, g: self.g, b: self.b }
    }
}

} // verus!
