//! The fixed palette the paths draw with, and the clear color of the frame.

use vstd::prelude::*;

verus! {

/// How many colors the palette offers.
pub const PALETTE_SIZE: usize = 5;

/// An sRGB color with 8-bit channels.
#[derive(Clone, Copy, PartialEq, Eq, Structural, Debug)]
pub struct Color {
    pub red: u8,
    pub green: u8,
    pub blue: u8,
}

/// The palette entry at `i`: snow, deep pink, turquoise, yellow-green and
/// light gray, in that order.
pub open spec fn palette_spec(i: int) -> Color {
    if i == 0 {
        Color { red: 255, green: 250, blue: 250 }
    } else if i == 1 {
        Color { red: 255, green: 20, blue: 147 }
    } else if i == 2 {
        Color { red: 64, green: 224, blue: 208 }
    } else if i == 3 {
        Color { red: 154, green: 205, blue: 50 }
    } else {
        Color { red: 211, green: 211, blue: 211 }
    }
}

/// The palette entry at `i`.
pub fn palette_color(i: usize) -> (c: Color)
    requires
        i < PALETTE_SIZE,
    ensures
        c == palette_spec(i as int),
{
    if i == 0 {
        Color { red: 255, green: 250, blue: 250 }
    } else if i == 1 {
        Color { red: 255, green: 20, blue: 147 }
    } else if i == 2 {
        Color { red: 64, green: 224, blue: 208 }
    } else if i == 3 {
        Color { red: 154, green: 205, blue: 50 }
    } else {
        Color { red: 211, green: 211, blue: 211 }
    }
}

/// The color the frame is cleared to before the paths are drawn: black.
pub fn background() -> (c: Color)
    ensures
        c == (Color { red: 0, green: 0, blue: 0 }),
{
    Color { red: 0, green: 0, blue: 0 }
}

} // verus!
