//! Black-and-white 32x32 icons with a mask, as stored in `ICN#` resources:
//! 128 bytes of image, then 128 bytes of mask, one bit per pixel, rows of
//! four bytes, most significant bit leftmost.

use vstd::prelude::*;

verus! {

/// Bytes of an icon with its mask.
pub const ICON_BYTES: usize = 256;

/// A pixel of a masked icon.
#[derive(PartialEq, Eq, Structural, Debug, Clone, Copy)]
pub enum IconPixel {
    /// Outside the mask: not drawn.
    Transparent,
    /// Drawn black.
    Black,
    /// Drawn white.
    White,
}

/// Bit `i` of the 128-byte bitmap starting at `base` of `icon`.
pub open spec fn icon_bit(icon: Seq<u8>, base: int, i: int) -> bool {
    (icon[base + i / 8] >> (7 - i % 8) as u8) & 1 == 1
}

/// The pixel in column `x` of row `y`.
pub fn icon_pixel(icon: &[u8], x: usize, y: usize) -> (r: IconPixel)
    requires
        icon@.len() >= ICON_BYTES,
        x < 32,
        y < 32,
    ensures
        r == (if !icon_bit(icon@, 128, y * 32 + x) {
            IconPixel::Transparent
        } else if icon_bit(icon@, 0, y * 32 + x) {
            IconPixel::Black
        } else {
            IconPixel::White
        }),
{
    let idx = y * 32 + x;
    let byte = idx / 8;
    let shift = (7 - idx % 8) as u8;
    let mask = icon[byte + 128];
    let col = icon[byte];
    let bit = 1u8 << shift;
    assert((mask & bit) != 0 <==> ((mask >> shift) & 1 == 1)) by (bit_vector)
        requires
            shift < 8,
            bit == 1u8 << shift,
    ;
    assert((col & bit) != 0 <==> ((col >> shift) & 1 == 1)) by (bit_vector)
        requires
            shift < 8,
            bit == 1u8 << shift,
    ;
    if mask & bit == 0 {
        IconPixel::Transparent
    } else if col & bit != 0 {
        IconPixel::Black
    } else {
        IconPixel::White
    }
}

} // verus!
