//! Clear colours as exact fractions.
//!
//! A channel is kept as a numerator over a denominator, so that the value a
//! frame clears to is known exactly; it is turned into a float only where the
//! colour is handed to the graphics device.

use vstd::prelude::*;

verus! {

/// The exact quotient `num / den` of one colour channel.
#[derive(Clone, Copy, Debug, PartialEq, Eq, Structural)]
pub struct Fraction {
    pub num: i64,
    pub den: u32,
}

impl Fraction {
    /// The fraction stands for the rational number `p / q`.
    pub open spec fn denotes(self, p: int, q: int) -> bool {
        &&& self.den != 0
        &&& q != 0
        &&& self.num * q == p * self.den
    }

    /// The fraction `num / den`, kept as written.
    pub fn new(num: i64, den: u32) -> (r: Fraction)
        ensures
            r.num == num,
            r.den == den,
    {
        Fraction { num, den }
    }
}

/// An RGBA colour whose channels are exact fractions.
#[derive(Clone, Copy, Debug, PartialEq, Eq, Structural)]
pub struct Color {
    pub r: Fraction,
    pub g: Fraction,
    pub b: Fraction,
    pub a: Fraction,
}

/// Blue is three tenths in every clear colour.
pub open spec fn spec_blue() -> Fraction {
    Fraction { num: 3, den: 10 }
}

/// Alpha is one in every clear colour.
pub open spec fn spec_opaque() -> Fraction {
    Fraction { num: 1, den: 1 }
}

/// The clear colour used while no cursor position is known.
pub open spec fn spec_default_color() -> Color {
    Color {
        r: Fraction { num: 1, den: 10 },
        g: Fraction { num: 2, den: 10 },
        b: spec_blue(),
        a: spec_opaque(),
    }
}

/// The clear colour for a cursor at `(x, y)` in a window `width` by `height`:
/// red is `x / width`, green is `y / height`.
pub open spec fn spec_cursor_color(x: i64, y: i64, width: u32, height: u32) -> Color {
    Color {
        r: Fraction { num: x, den: width },
        g: Fraction { num: y, den: height },
        b: spec_blue(),
        a: spec_opaque(),
    }
}

/// The clear colour used while no cursor position is known: `(0.1, 0.2, 0.3, 1.0)`.
pub fn default_color() -> (c: Color)
    ensures
        c == spec_default_color(),
{
    Color {
        r: Fraction::new(1, 10),
        g: Fraction::new(2, 10),
        b: Fraction::new(3, 10),
        a: Fraction::new(1, 1),
    }
}

/// The clear colour for a cursor at `(x, y)` in a window `width` by `height`.
pub fn cursor_color(x: i64, y: i64, width: u32, height: u32) -> (c: Color)
    ensures
        c == spec_cursor_color(x, y, width, height),
{
    Color {
        r: Fraction::new(x, width),
        g: Fraction::new(y, height),
        b: Fraction::new(3, 10),
        a: Fraction::new(1, 1),
    }
}

} // verus!
