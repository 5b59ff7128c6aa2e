use vstd::prelude::*;

verus! {

/// An RGBA color with four 8-bit channels, as written in a document:
/// straight (non-premultiplied) components.
#[derive(Debug, Clone, Copy, PartialEq, Eq, Structural)]
pub struct Color {
    pub r: u8,
    pub g: u8,
    pub b: u8,
    pub a: u8,
}

/// The denominator shared by all four numerators of a `PremulColor`:
/// `255 * 255`.
pub const PREMUL_DENOM: u32 = 65025;

/// A premultiplied color, held exactly: each channel is a numerator over
/// the common denominator `PREMUL_DENOM`.  The mathematical channel values
/// are `r / PREMUL_DENOM` and so on; a renderer divides once to obtain its
/// floating components.
#[derive(Debug, Clone, Copy, PartialEq, Eq, Structural)]
pub struct PremulColor {
    pub r: u32,
    pub g: u32,
    pub b: u32,
    pub a: u32,
}

impl Color {
    pub fn new(r: u8, g: u8, b: u8, a: u8) -> (c: Color)
        ensures
            c == (Color { r, g, b, a }),
    {
        Color { r, g, b, a }
    }

    /// Premultiplication: each straight channel `x` in `[0, 255]` stands for
    /// the real value `x / 255`; the premultiplied channels are
    /// `(r/255 * a/255, g/255 * a/255, b/255 * a/255, a/255)`.  Over the
    /// common denominator `255 * 255` the numerators are exactly the
    /// products below, so the conversion is exact and total.
    pub fn to_premultiplied(&self) -> (p: PremulColor)
        ensures
            p.r == self.r as u32 * self.a as u32,
            p.g == self.g as u32 * self.a as u32,
            p.b == self.b as u32 * self.a as u32,
            p.a == self.a as u32 * 255,
    {
        proof {
            assert(forall|x: u32, y: u32|
                x <= 255 && y <= 255 ==> #[trigger] (x * y) <= 65025) by (nonlinear_arith);
        }
        PremulColor {
            r: (self.r as u32) * (self.a as u32),
            g: (self.g as u32) * (self.a as u32),
            b: (self.b as u32) * (self.a as u32),
            a: (self.a as u32) * 255,
        }
    }
}

} // verus!
