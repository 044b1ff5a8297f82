//! The RGB565-style color used by the LED matrix frame buffer: five bits of
//! red, six of green, five of blue, each clamped at construction.

use vstd::prelude::*;

verus! {

/// A display color: red (0..=31), green (0..=63), blue (0..=31).
#[derive(Clone, Copy, Debug, Default, PartialEq, Eq, Structural)]
pub struct Color(pub u8, pub u8, pub u8);

impl Color {
    /// Builds a color, clamping each component to its field width.
    pub fn new(r: u8, g: u8, b: u8) -> (c: Color)
        ensures
            c.0 == if r > 31 { 31u8 } else { r },
            c.1 == if g > 63 { 63u8 } else { g },
            c.2 == if b > 31 { 31u8 } else { b },
    {
        Color(
            if r > 31 { 31 } else { r },
            if g > 63 { 63 } else { g },
            if b > 31 { 31 } else { b },
        )
    }
}

} // verus!
