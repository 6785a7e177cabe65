//! The fixed background palette: ten named RGB colors, picked from by index.

use vstd::prelude::*;

verus! {

/// An RGB color with 8-bit channels.
#[derive(Clone, Copy, PartialEq, Eq, Structural, Debug)]
pub struct Color {
    pub r: u8,
    pub g: u8,
    pub b: u8,
}

/// The color of the palette entry at index `i` (plum, teal, violet, coral,
/// gold, forest green, slate blue, salmon, turquoise, aquamarine).
pub open spec fn palette_spec(i: int) -> Color {
    if i == 0 {
        Color { r: 221, g: 160, b: 221 }
    } else if i == 1 {
        Color { r: 0, g: 128, b: 128 }
    } else if i == 2 {
        Color { r: 238, g: 130, b: 238 }
    } else if i == 3 {
        Color { r: 255, g: 127, b: 80 }
    } else if i == 4 {
        Color { r: 255, g: 215, b: 0 }
    } else if i == 5 {
        Color { r: 34, g: 139, b: 34 }
    } else if i == 6 {
        Color { r: 106, g: 90, b: 205 }
    } else if i == 7 {
        Color { r: 250, g: 128, b: 114 }
    } else if i == 8 {
        Color { r: 64, g: 224, b: 208 }
    } else {
        Color { r: 127, g: 255, b: 212 }
    }
}

/// True when `c` is one of the ten palette entries.
pub open spec fn in_palette(c: Color) -> bool {
    exists|i: int| 0 <= i < crate::PALETTE_LEN && c == palette_spec(i)
}

/// The palette entry at index `i`.
pub fn palette(i: u32) -> (c: Color)
    requires
        i < crate::PALETTE_LEN,
    ensures
        c == palette_spec(i as int),
        in_palette(c),
{
    let c = if i == 0 {
        Color { r: 221, g: 160, b: 221 }
    } else if i == 1 {
        Color { r: 0, g: 128, b: 128 }
    } else if i == 2 {
        Color { r: 238, g: 130, b: 238 }
    } else if i == 3 {
        Color { r: 255, g: 127, b: 80 }
    } else if i == 4 {
        Color { r: 255, g: 215, b: 0 }
    } else if i == 5 {
        Color { r: 34, g: 139, b: 34 }
    } else if i == 6 {
        Color { r: 106, g: 90, b: 205 }
    } else if i == 7 {
        Color { r: 250, g: 128, b: 114 }
    } else if i == 8 {
        Color { r: 64, g: 224, b: 208 }
    } else {
        Color { r: 127, g: 255, b: 212 }
    };
    proof {
        assert(c == palette_spec(i as int));
    }
    c
}

} // verus!
