//! RGB565 colors as raw 16-bit values.

use vstd::prelude::*;

verus! {

/// The RGB565 encoding of a color: 5 bits red, 6 bits green, 5 bits blue,
/// each channel masked to its width.
pub open spec fn spec_rgb565(r: u8, g: u8, b: u8) -> u16 {
    ((((r & 0x1F) as u16) << 11u16) | (((g & 0x3F) as u16) << 5u16) | ((b & 0x1F) as u16))
}

/// Builds a raw RGB565 color from its channels.
pub fn rgb565(r: u8, g: u8, b: u8) -> (c: u16)
    ensures
        c == spec_rgb565(r, g, b),
{
    (((r & 0x1F) as u16) << 11) | (((g & 0x3F) as u16) << 5) | ((b & 0x1F) as u16)
}

pub const BLACK: u16 = 0x0000;
pub const WHITE: u16 = 0xFFFF;
pub const RED: u16 = 0xF800;
pub const GREEN: u16 = 0x07E0;
pub const BLUE: u16 = 0x001F;
pub const YELLOW: u16 = 0xFFE0;
pub const CYAN: u16 = 0x07FF;
/// CSS gray (128, 128, 128) in RGB565.
pub const GRAY: u16 = 0x8410;

} // verus!
