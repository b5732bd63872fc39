//! The mode 3 bitmap: one direct color per pixel.
//!
//! Each slot holds the raw bits of one [`Color`].
use vstd::prelude::*;
use vstd::layout::size_of;
use crate::color::Color;
use crate::core_extras::{address_space, slot_address, valid_run, VolAddress, VolAddressBlock};

verus! {

/// The width of the mode 3 bitmap, in pixels.
pub const WIDTH: usize = 240;

/// The height of the mode 3 bitmap, in pixels.
pub const HEIGHT: usize = 160;

/// Where the mode 3 bitmap starts.
pub const BITMAP_ADDRESS: usize = 0x0600_0000;

/// How many `u32` words cover the whole bitmap: `WIDTH * HEIGHT * 2 / 4`.
pub const MODE3_WORD_COUNT: u16 = 19200;

/// The `WIDTH * HEIGHT` pixels of the bitmap, row after row.
pub fn bitmap() -> (r: VolAddressBlock<u16>)
    ensures
        r.base() == BITMAP_ADDRESS,
        r.len() == WIDTH * HEIGHT,
{
    proof {
        assert(size_of::<u16>() == 2);
        assert forall|i: int| 0 <= i <= WIDTH * HEIGHT implies #[trigger] slot_address::<u16>(
            BITMAP_ADDRESS,
            i,
        ) != 0 by {
            vstd::arithmetic::div_mod::lemma_small_mod(
                (BITMAP_ADDRESS + i * 2) as nat,
                address_space() as nat,
            );
        }
        assert(valid_run::<u16>(BITMAP_ADDRESS, (WIDTH * HEIGHT) as usize));
    }
    VolAddressBlock::new_unchecked(VolAddress::new_unchecked(BITMAP_ADDRESS), WIDTH * HEIGHT)
}

/// The pixel at column `x` of row `y`.
///
/// The pixel must be in the bitmap.
pub fn bitmap_xy(x: usize, y: usize) -> (r: VolAddress<u16>)
    requires
        y * WIDTH + x < WIDTH * HEIGHT,
    ensures
        r@ == BITMAP_ADDRESS + 2 * (y * WIDTH + x),
{
    let b = bitmap();
    let a = b.index(y * WIDTH + x);
    proof {
        vstd::arithmetic::div_mod::lemma_small_mod(
            (BITMAP_ADDRESS + (y * WIDTH + x) * size_of::<u16>()) as nat,
            address_space() as nat,
        );
    }
    a
}

/// The color repeated in both halves of a `u32`, as a fill of the bitmap
/// copies it two pixels at a time.
pub fn wide_color(color: Color) -> (r: u32)
    ensures
        r == (color.0 as u32) | ((color.0 as u32) << 16u32),
{
    (color.0 as u32) | ((color.0 as u32) << 16)
}

} // verus!
