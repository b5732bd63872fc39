//! Addresses of the palette memory.
//!
//! Each slot holds the raw bits of one [`crate::color::Color`]; convert with `Color::from`
//! and `u16::from`.
use vstd::prelude::*;
use vstd::layout::size_of;
use crate::core_extras::{address_space, slot_address, valid_run, VolAddress, VolAddressBlock};

verus! {

/// The start of the 256 background palette colors.
pub const BG_PALETTE: usize = 0x0500_0000;

/// The start of the 256 object palette colors.
pub const OBJ_PALETTE: usize = 0x0500_0200;

/// Every address of `count` colors from `base` is in the low 32 bits and
/// non-null.
proof fn lemma_color_run(base: usize, count: usize)
    requires
        0 < base,
        base + 2 * count < 0x1_0000_0000,
    ensures
        valid_run::<u16>(base, count),
{
    assert(size_of::<u16>() == 2);
    assert forall|i: int| 0 <= i <= count implies #[trigger] slot_address::<u16>(base, i) != 0 by {
        vstd::arithmetic::div_mod::lemma_small_mod((base + i * 2) as nat, address_space() as nat);
    }
}

/// The sixteen colors of a palette bank that starts `bank` banks after `palette`.
fn palbank(palette: usize, bank: usize) -> (r: VolAddressBlock<u16>)
    requires
        palette == BG_PALETTE || palette == OBJ_PALETTE,
        bank < 16,
    ensures
        r.base() == palette + bank * 32,
        r.len() == 16,
{
    let base: usize = palette + bank * 32;
    proof {
        lemma_color_run(base, 16);
    }
    VolAddressBlock::new_unchecked(VolAddress::new_unchecked(base), 16)
}

/// The sixteen colors of background palette bank `bank`.
///
/// There are sixteen banks.
pub fn bg_palbank(bank: usize) -> (r: VolAddressBlock<u16>)
    requires
        bank < 16,
    ensures
        r.base() == BG_PALETTE + bank * 32,
        r.len() == 16,
{
    palbank(BG_PALETTE, bank)
}

/// The sixteen colors of object palette bank `bank`.
///
/// There are sixteen banks.
pub fn obj_palbank(bank: usize) -> (r: VolAddressBlock<u16>)
    requires
        bank < 16,
    ensures
        r.base() == OBJ_PALETTE + bank * 32,
        r.len() == 16,
{
    palbank(OBJ_PALETTE, bank)
}

} // verus!
