use vstd::prelude::*;

verus! {

/// An RGBA color with one byte per channel: 0 is none of the channel,
/// 255 is the full channel.  Every representable value is a valid color,
/// so construction never fails.
#[derive(Clone, Copy, Debug, PartialEq, Eq, Structural)]
pub struct Color {
    pub r: u8,
    pub g: u8,
    pub b: u8,
    pub a: u8,
}

impl Color {
    /// Construct an `(r, g, b, a)` color.
    pub fn new(r: u8, g: u8, b: u8, a: u8) -> (c: Color)
        ensures
            c.r == r && c.g == g && c.b == b && c.a == a,
    {
        Color { r, g, b, a }
    }

    /// Opaque white.
    pub fn white() -> (c: Color)
        ensures
            c.r == 255 && c.g == 255 && c.b == 255 && c.a == 255,
    {
        Color { r: 255, g: 255, b: 255, a: 255 }
    }

    /// Opaque black.
    pub fn black() -> (c: Color)
        ensures
            c.r == 0 && c.g == 0 && c.b == 0 && c.a == 255,
    {
        Color { r: 0, g: 0, b: 0, a: 255 }
    }

    /// Opaque red.
    pub fn red() -> (c: Color)
        ensures
            c.r == 255 && c.g == 0 && c.b == 0 && c.a == 255,
    {
        Color { r: 255, g: 0, b: 0, a: 255 }
    }

    /// Opaque green.
    pub fn green() -> (c: Color)
        ensures
            c.r == 0 && c.g == 255 && c.b == 0 && c.a == 255,
    {
        Color { r: 0, g: 255, b: 0, a: 255 }
    }

    /// Opaque blue.
    pub fn blue() -> (c: Color)
        ensures
            c.r == 0 && c.g == 0 && c.b == 255 && c.a == 255,
    {
        Color { r: 0, g: 0, b: 255, a: 255 }
    }
}

} // verus!
