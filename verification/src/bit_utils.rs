//! Bit manipulation of `u16` values, with the bits picked by const generics.
use vstd::prelude::*;
use crate::bits::{bit16, set_bit16, mask16, lemma_masked_write_read16, lemma_masked_write_other16};

verus! {

/// The mask with bits `low ..= high` set, as these functions build it.
pub open spec fn region_mask(low: u32, high: u32) -> u16 {
    mask16(low as u16, high as u16)
}

/// Gets the `B` bit.
///
/// The bit requested must be in range (there is no bit past 15).
pub fn u16_get_bit<const B: u32>(x: u16) -> (r: bool)
    requires
        B < 16,
    ensures
        r == bit16(x, B as u16),
{
    let mask: u16 = 1 << B;
    (x & mask) != 0
}

/// Replaces the `B` bit.
///
/// The bit requested must be in range (there is no bit past 15).
pub fn u16_with_bit<const B: u32>(x: u16, val: bool) -> (r: u16)
    requires
        B < 16,
    ensures
        r == set_bit16(x, B as u16, val),
{
    let mask: u16 = 1 << B;
    let v: u16 = if val { 1 } else { 0 };
    let r = (x & !mask) | (v << B);
    proof {
        lemma_with_bit(x, B as u16, val);
    }
    r
}

proof fn lemma_with_bit(x: u16, b: u16, val: bool)
    requires
        b < 16,
    ensures
        (x & !(1u16 << b)) | ((if val { 1u16 } else { 0u16 }) << b) == set_bit16(x, b, val),
{
    assert((x & !(1u16 << b)) | ((if val { 1u16 } else { 0u16 }) << b) == set_bit16(x, b, val))
        by (bit_vector)
        requires
            b < 16,
    ;
}

/// Builds the mask of bits `L ..= H` through a
/// `u64`.
fn mask_of<const L: u32, const H: u32>() -> (m: u16)
    requires
        L < H < 16,
    ensures
        m == region_mask(L, H),
{
    proof {
        lemma_mask_through_u64(L as u64, H as u64);
    }
    (((1u64 << (H - L + 1)) - 1) << L) as u16
}

proof fn lemma_mask_through_u64(l: u64, h: u64)
    requires
        l < h < 16,
    ensures
        (1u64 << (h - l + 1) as u64) >= 1,
        ((((1u64 << (h - l + 1) as u64) - 1) as u64) << l) as u16 == mask16(l as u16, h as u16),
{
    assert((1u64 << (h - l + 1) as u64) >= 1 && ((((1u64 << (h - l + 1) as u64) - 1) as u64) << l) as u16 == mask16(l as u16, h as u16))
        by (bit_vector)
        requires
            l < h < 16,
    ;
}

/// Gets a `L` to `H` (inclusive) bit region of the value.
///
/// `L` and `H` must be in range with `L < H` (other regions are not defined).
pub fn u16_get_region<const L: u32, const H: u32>(x: u16) -> (r: u16)
    requires
        L < H < 16,
    ensures
        r == x & region_mask(L, H),
{
    let mask = mask_of::<L, H>();
    x & mask
}

/// Replaces a `L` to `H` (inclusive) bit region of the value: the region
/// takes the bits of `val` in the same places, every other bit of `x` is
/// kept (bits of `val` outside the region are dropped).
///
/// `L` and `H` must be in range with `L < H` (other regions are not defined).
pub fn u16_with_region<const L: u32, const H: u32>(x: u16, val: u16) -> (r: u16)
    requires
        L < H < 16,
    ensures
        r == (x & !region_mask(L, H)) | (val & region_mask(L, H)),
{
    let mask = mask_of::<L, H>();
    (x & !mask) | (val & mask)
}

/// Like [`u16_get_region`] but the output is shifted down appropriately.
pub fn u16_get_value<const L: u32, const H: u32>(x: u16) -> (r: u16)
    requires
        L < H < 16,
    ensures
        r == (x & region_mask(L, H)) >> (L as u16),
{
    u16_get_region::<L, H>(x) >> L
}

/// Like [`u16_with_region`] but the value is shifted up appropriately: the
/// low bits of `val` that fit the region replace it.
pub fn u16_with_value<const L: u32, const H: u32>(x: u16, val: u16) -> (r: u16)
    requires
        L < H < 16,
    ensures
        r == (x & !region_mask(L, H)) | (((val << (L as u16)) as u16) & region_mask(L, H)),
{
    u16_with_region::<L, H>(x, val << L)
}

/// What [`u16_with_region`] gives: inside the region the bits of `val`,
/// outside it the bits of `x`.
pub proof fn lemma_with_region_replaces(x: u16, val: u16, low: u32, high: u32)
    ensures
        ((x & !region_mask(low, high)) | (val & region_mask(low, high))) & region_mask(low, high)
            == val & region_mask(low, high),
        ((x & !region_mask(low, high)) | (val & region_mask(low, high))) & !region_mask(low, high)
            == x & !region_mask(low, high),
{
    let m = region_mask(low, high);
    lemma_masked_write_read16(x, val, m);
    assert(m & !m == 0) by (bit_vector);
    lemma_masked_write_other16(x, val, m, !m);
}

} // verus!
