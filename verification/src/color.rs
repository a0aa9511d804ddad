//! Plain RGB color values as the simulation sees them.
//!
//! The drawing surface stores full RGBA pixels; everything this crate paints
//! is opaque, so the simulation describes a color by its three channels and
//! the surface wrappers add the opaque alpha channel.

use vstd::prelude::*;

verus! {

/// An opaque color, one byte per channel.
#[derive(Debug, Clone, Copy, PartialEq, Eq, Structural)]
pub struct Rgb {
    pub r: u8,
    pub g: u8,
    pub b: u8,
}

impl Rgb {
    /// The RGBA pixel this color becomes on the drawing surface.
    pub open spec fn pixel(self) -> (u8, u8, u8, u8) {
        (self.r, self.g, self.b, 255u8)
    }

    pub fn new(r: u8, g: u8, b: u8) -> (c: Rgb)
        ensures
            c == (Rgb { r, g, b }),
    {
        Rgb { r, g, b }
    }

    /// The background color of the display: black.
    pub fn black() -> (c: Rgb)
        ensures
            c == Rgb::black_spec(),
    {
        Rgb { r: 0, g: 0, b: 0 }
    }

    pub open spec fn black_spec() -> Rgb {
        Rgb { r: 0, g: 0, b: 0 }
    }
}

} // verus!
