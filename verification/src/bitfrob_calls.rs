//! Trusted entry points into the `bitfrob` crate.
//!
//! Each function here makes one call into `bitfrob` and states what the
//! crate's source computes for it. `bitfrob` asserts that every bit index is
//! below the integer's width and that `low <= high`; those asserts are the
//! `requires` here.
use vstd::prelude::*;
use crate::bits::{bit16, set_bit16, bit8, set_bit8, mask16};

verus! {

/// `bitfrob::u16_get_bit(b, u)`: whether bit `b` of `u` is set.
#[verifier::external_body]
pub(crate) fn u16_get_bit(b: u32, u: u16) -> (r: bool)
    requires
        b < 16,
    ensures
        r == bit16(u, b as u16),
{
    bitfrob::u16_get_bit(b, u)
}

/// `bitfrob::u16_with_bit(b, u, is_set)`: `u` with bit `b` replaced by `is_set`.
#[verifier::external_body]
pub(crate) fn u16_with_bit(b: u32, u: u16, is_set: bool) -> (r: u16)
    requires
        b < 16,
    ensures
        r == set_bit16(u, b as u16, is_set),
{
    bitfrob::u16_with_bit(b, u, is_set)
}

/// `bitfrob::u8_get_bit(b, u)`: whether bit `b` of `u` is set.
#[verifier::external_body]
pub(crate) fn u8_get_bit(b: u32, u: u8) -> (r: bool)
    requires
        b < 8,
    ensures
        r == bit8(u, b as u8),
{
    bitfrob::u8_get_bit(b, u)
}

/// `bitfrob::u8_with_bit(b, u, is_set)`: `u` with bit `b` replaced by `is_set`.
#[verifier::external_body]
pub(crate) fn u8_with_bit(b: u32, u: u8, is_set: bool) -> (r: u8)
    requires
        b < 8,
    ensures
        r == set_bit8(u, b as u8, is_set),
{
    bitfrob::u8_with_bit(b, u, is_set)
}

/// `bitfrob::u16_get_region(low, high, u)`: `u` masked to the bits `low ..= high`.
#[verifier::external_body]
pub(crate) fn u16_get_region(low: u32, high: u32, u: u16) -> (r: u16)
    requires
        low <= high < 16,
    ensures
        r == u & mask16(low as u16, high as u16),
{
    bitfrob::u16_get_region(low, high, u)
}

/// `bitfrob::u16_with_region(low, high, old, replacement)`: the bits
/// `low ..= high` of `old` replaced by the same bits of `replacement`.
#[verifier::external_body]
pub(crate) fn u16_with_region(low: u32, high: u32, old: u16, replacement: u16) -> (r: u16)
    requires
        low <= high < 16,
    ensures
        r == (old & !mask16(low as u16, high as u16)) | (replacement & mask16(low as u16, high as u16)),
{
    bitfrob::u16_with_region(low, high, old, replacement)
}

} // verus!
