//! Palette lookup: unpacking a packed RGBA entry with fixed darkening.

use vstd::prelude::*;

verus! {

/// One channel subtracted with saturation at zero; the result of
/// `u8::saturating_sub`.
pub open spec fn shade(channel: int, darken: int) -> int {
    if channel >= darken {
        channel - darken
    } else {
        0
    }
}

/// The packed little-endian RGBA entry unpacked into channels, with `darken`
/// subtracted (saturating) from red, green and blue; alpha is untouched.
pub open spec fn spec_colour(entry: u32, darken: u8) -> (u8, u8, u8, u8) {
    (
        shade(entry as int % 256, darken as int) as u8,
        shade((entry as int / 256) % 256, darken as int) as u8,
        shade((entry as int / 65536) % 256, darken as int) as u8,
        ((entry as int / 16777216) % 256) as u8,
    )
}

/// Looks up `palette[index - 1]`, unpacks it into (r, g, b, a) and darkens
/// the color channels, saturating at zero.
pub fn colour(palette: &Vec<u32>, index: u8, subtract: u8) -> (c: (u8, u8, u8, u8))
    requires
        1 <= index,
        index as int <= palette@.len(),
    ensures
        c == spec_colour(palette@[index - 1], subtract),
{
    let entry: u32 = palette[(index - 1) as usize];
    let r: u8 = (entry % 256) as u8;
    let g: u8 = ((entry >> 8) % 256) as u8;
    let b: u8 = ((entry >> 16) % 256) as u8;
    let a: u8 = ((entry >> 24) % 256) as u8;

    proof {
        assert((entry >> 8) % 256 == (entry / 256) % 256 && (entry >> 16) % 256 == (entry
            / 65536) % 256 && (entry >> 24) % 256 == (entry / 16777216) % 256) by (bit_vector);
    }

    let r: u8 = r.saturating_sub(subtract);
    let g: u8 = g.saturating_sub(subtract);
    let b: u8 = b.saturating_sub(subtract);

    (r, g, b, a)
}

} // verus!
