//! Pixel colours and their order on the wire.

use vstd::prelude::*;

verus! {

/// One pixel: three independent 8-bit channels.
#[derive(Clone, Copy, Debug, PartialEq, Eq)]
pub struct Color {
    pub r: u8,
    pub g: u8,
    pub b: u8,
}

impl Color {
    /// The three bytes of a pixel in the order the pixel buffer stores them:
    /// green, red, blue.
    pub open spec fn grb(self) -> Seq<u8> {
        seq![self.g, self.r, self.b]
    }

    /// A colour from its red, green and blue channels.
    pub fn rgb(r: u8, g: u8, b: u8) -> (color: Color)
        ensures
            color == (Color { r, g, b }),
    {
        Color { r, g, b }
    }

    /// The pixel as it is written into the pixel buffer.
    pub fn as_grb_slice(&self) -> (wire: [u8; 3])
        ensures
            wire@ == self.grb(),
    {
        let wire: [u8; 3] = [self.g, self.r, self.b];
        assert(wire@ =~= self.grb());
        wire
    }
}

} // verus!
