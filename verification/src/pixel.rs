//! The word that carries one pixel to the strip.

use vstd::prelude::*;

verus! {

/// The pixel word of a color: green, red and blue in the three high bytes,
/// from the top down, over a low byte of zero.
pub open spec fn grb_word(r: u8, g: u8, b: u8) -> u32 {
    (g * 0x100_0000 + r * 0x1_0000 + b * 0x100) as u32
}

/// Packs a color into the word the strip shifts out, high bit first.
pub fn pack_grb(r: u8, g: u8, b: u8) -> (word: u32)
    ensures
        word == grb_word(r, g, b),
        word >> 24 == g,
        (word >> 16) & 0xff == r,
        (word >> 8) & 0xff == b,
        word & 0xff == 0,
{
    let word: u32 = (((g as u32) << 16) | ((r as u32) << 8) | b as u32) << 8;
    assert(word == g * 0x100_0000 + r * 0x1_0000 + b * 0x100 && word >> 24 == g && (word >> 16)
        & 0xff == r && (word >> 8) & 0xff == b && word & 0xff == 0) by (bit_vector)
        requires
            word == (((g as u32) << 16) | ((r as u32) << 8) | b as u32) << 8,
    ;
    word
}

} // verus!
