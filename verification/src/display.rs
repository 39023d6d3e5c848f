//! Colors of the display buffer's cells.
//!
//! The display buffer is organized as alternating pairs `(glyph, color)`.
//! The color byte packs two four-bit palette indices: the high nibble selects
//! the foreground, the low nibble the background. Indices are looked up in a
//! fixed thirteen-entry palette; index 11 and every unmapped index resolve to
//! black. A presentation collaborator turns these plain channel values into
//! whatever its graphics layer expects.
use vstd::prelude::*;

verus! {

/// A color as plain 8-bit red, green, blue and alpha channels.
#[derive(Clone, Copy, Debug, PartialEq, Eq, Structural)]
pub struct Rgba {
    pub red: u8,
    pub green: u8,
    pub blue: u8,
    pub alpha: u8,
}

/// Black, the fallback of every unmapped palette index.
pub open spec fn spec_black() -> Rgba {
    Rgba { red: 0, green: 0, blue: 0, alpha: 255 }
}

/// The fixed palette: the color a four-bit index selects.
pub open spec fn spec_palette(idx: u8) -> Rgba {
    if idx == 0 {
        Rgba { red: 255, green: 255, blue: 255, alpha: 255 }
    } else if idx == 1 {
        Rgba { red: 0, green: 117, blue: 44, alpha: 255 }
    } else if idx == 2 {
        Rgba { red: 0, green: 228, blue: 48, alpha: 255 }
    } else if idx == 3 {
        Rgba { red: 0, green: 82, blue: 172, alpha: 255 }
    } else if idx == 4 {
        Rgba { red: 0, green: 121, blue: 241, alpha: 255 }
    } else if idx == 5 {
        Rgba { red: 102, green: 191, blue: 255, alpha: 255 }
    } else if idx == 6 {
        Rgba { red: 230, green: 41, blue: 55, alpha: 255 }
    } else if idx == 7 {
        Rgba { red: 255, green: 161, blue: 0, alpha: 255 }
    } else if idx == 8 {
        Rgba { red: 253, green: 249, blue: 0, alpha: 255 }
    } else if idx == 9 {
        Rgba { red: 255, green: 109, blue: 194, alpha: 255 }
    } else if idx == 10 {
        Rgba { red: 200, green: 200, blue: 200, alpha: 255 }
    } else if idx == 12 {
        Rgba { red: 255, green: 0, blue: 255, alpha: 255 }
    } else {
        spec_black()
    }
}

/// The palette color a four-bit index selects: white, dark green, green,
/// dark blue, blue, sky blue, red, orange, yellow, pink, light gray, black
/// and magenta in index order; index 11 and every unmapped index are black.
pub fn fourbit_color(idx: u8) -> (c: Rgba)
    ensures
        c == spec_palette(idx),
{
    if idx == 0 {
        Rgba { red: 255, green: 255, blue: 255, alpha: 255 }
    } else if idx == 1 {
        Rgba { red: 0, green: 117, blue: 44, alpha: 255 }
    } else if idx == 2 {
        Rgba { red: 0, green: 228, blue: 48, alpha: 255 }
    } else if idx == 3 {
        Rgba { red: 0, green: 82, blue: 172, alpha: 255 }
    } else if idx == 4 {
        Rgba { red: 0, green: 121, blue: 241, alpha: 255 }
    } else if idx == 5 {
        Rgba { red: 102, green: 191, blue: 255, alpha: 255 }
    } else if idx == 6 {
        Rgba { red: 230, green: 41, blue: 55, alpha: 255 }
    } else if idx == 7 {
        Rgba { red: 255, green: 161, blue: 0, alpha: 255 }
    } else if idx == 8 {
        Rgba { red: 253, green: 249, blue: 0, alpha: 255 }
    } else if idx == 9 {
        Rgba { red: 255, green: 109, blue: 194, alpha: 255 }
    } else if idx == 10 {
        Rgba { red: 200, green: 200, blue: 200, alpha: 255 }
    } else if idx == 12 {
        Rgba { red: 255, green: 0, blue: 255, alpha: 255 }
    } else {
        Rgba { red: 0, green: 0, blue: 0, alpha: 255 }
    }
}

/// The foreground and background colors a display color byte selects: the
/// high nibble indexes the foreground, the low nibble the background.
pub fn colors_from_byte(byte: &u8) -> (c: (Rgba, Rgba))
    ensures
        c.0 == spec_palette(*byte >> 4),
        c.1 == spec_palette(*byte & 15),
{
    (fourbit_color(*byte >> 4), fourbit_color(*byte & 15))
}

} // verus!
