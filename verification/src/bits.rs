//! The mathematical model of bit fields that the register types are built on.
use vstd::prelude::*;

verus! {

/// Whether bit `b` of `x` is set.
pub open spec fn bit16(x: u16, b: u16) -> bool {
    x & (1u16 << b) != 0
}

/// `x` with bit `b` set to `v`, every other bit kept.
pub open spec fn set_bit16(x: u16, b: u16, v: bool) -> u16 {
    if v {
        x | (1u16 << b)
    } else {
        x & !(1u16 << b)
    }
}

/// Whether bit `b` of `x` is set.
pub open spec fn bit8(x: u8, b: u8) -> bool {
    x & (1u8 << b) != 0
}

/// `x` with bit `b` set to `v`, every other bit kept.
pub open spec fn set_bit8(x: u8, b: u8, v: bool) -> u8 {
    if v {
        x | (1u8 << b)
    } else {
        x & !(1u8 << b)
    }
}

/// The `u16` with exactly the bits `low ..= high` set.
pub open spec fn mask16(low: u16, high: u16) -> u16 {
    ((0xffffu16 >> (15 - (high - low)) as u16) << low) as u16
}

/// The bits `low ..= high` of `x`, shifted down to start at bit 0.
pub open spec fn field16(x: u16, low: u16, high: u16) -> u16 {
    (x >> low) & mask16(0, (high - low) as u16)
}

/// `x` with the bits `low ..= high` replaced by the low bits of `v`.
pub open spec fn set_field16(x: u16, low: u16, high: u16, v: u16) -> u16 {
    (x & !mask16(low, high)) | (((v << low) as u16) & mask16(low, high))
}

/// Writing bit `b` and then reading bit `c` gives the written value when
/// `b == c`, and the old bit otherwise.
pub broadcast proof fn lemma_bit16_of_set(x: u16, b: u16, v: bool, c: u16)
    requires
        b < 16,
        c < 16,
    ensures
        #[trigger] bit16(set_bit16(x, b, v), c) == if b == c { v } else { bit16(x, c) },
{
    assert(bit16(set_bit16(x, b, v), c) == if b == c { v } else { bit16(x, c) }) by (bit_vector)
        requires
            b < 16,
            c < 16,
    ;
}

/// Writing bit `b` and then reading bit `c` gives the written value when
/// `b == c`, and the old bit otherwise.
pub broadcast proof fn lemma_bit8_of_set(x: u8, b: u8, v: bool, c: u8)
    requires
        b < 8,
        c < 8,
    ensures
        #[trigger] bit8(set_bit8(x, b, v), c) == if b == c { v } else { bit8(x, c) },
{
    assert(bit8(set_bit8(x, b, v), c) == if b == c { v } else { bit8(x, c) }) by (bit_vector)
        requires
            b < 8,
            c < 8,
    ;
}

/// Reading back a field after writing it gives the written value, cut to the
/// field's width.
pub broadcast proof fn lemma_field16_of_set(x: u16, low: u16, high: u16, v: u16)
    requires
        low <= high < 16,
    ensures
        #[trigger] field16(set_field16(x, low, high, v), low, high) == v & mask16(0, (high - low) as u16),
{
    assert(field16(set_field16(x, low, high, v), low, high) == v & mask16(0, (high - low) as u16))
        by (bit_vector)
        requires
            low <= high < 16,
    ;
}

/// Writing a field leaves every bit outside `low ..= high` as it was.
pub broadcast proof fn lemma_bit16_of_set_field(x: u16, low: u16, high: u16, v: u16, c: u16)
    requires
        low <= high < 16,
        c < 16,
        c < low || high < c,
    ensures
        #[trigger] bit16(set_field16(x, low, high, v), c) == bit16(x, c),
{
    assert(bit16(set_field16(x, low, high, v), c) == bit16(x, c)) by (bit_vector)
        requires
            low <= high < 16,
            c < 16,
            c < low || high < c,
    ;
}

/// Writing a field leaves every other field that does not overlap it as it was.
pub broadcast proof fn lemma_field16_of_set_other(x: u16, low: u16, high: u16, v: u16, low2: u16, high2: u16)
    requires
        low <= high < 16,
        low2 <= high2 < 16,
        high2 < low || high < low2,
    ensures
        #[trigger] field16(set_field16(x, low, high, v), low2, high2) == field16(x, low2, high2),
{
    assert(field16(set_field16(x, low, high, v), low2, high2) == field16(x, low2, high2)) by (bit_vector)
        requires
            low <= high < 16,
            low2 <= high2 < 16,
            high2 < low || high < low2,
    ;
}

/// Writing a bit leaves every field that does not hold it as it was.
pub broadcast proof fn lemma_field16_of_set_bit(x: u16, b: u16, v: bool, low: u16, high: u16)
    requires
        b < 16,
        low <= high < 16,
        b < low || high < b,
    ensures
        #[trigger] field16(set_bit16(x, b, v), low, high) == field16(x, low, high),
{
    assert(field16(set_bit16(x, b, v), low, high) == field16(x, low, high)) by (bit_vector)
        requires
            b < 16,
            low <= high < 16,
            b < low || high < b,
    ;
}

/// Writing back what a field holds changes nothing.
pub proof fn lemma_set_field16_same(x: u16, low: u16, high: u16)
    requires
        low <= high < 16,
    ensures
        set_field16(x, low, high, field16(x, low, high)) == x,
{
    assert(set_field16(x, low, high, field16(x, low, high)) == x) by (bit_vector)
        requires
            low <= high < 16,
    ;
}

/// Writing back what a bit holds changes nothing.
pub proof fn lemma_set_bit16_same(x: u16, b: u16)
    requires
        b < 16,
    ensures
        set_bit16(x, b, bit16(x, b)) == x,
{
    assert(set_bit16(x, b, bit16(x, b)) == x) by (bit_vector)
        requires
            b < 16,
    ;
}

/// A second write of the same bit replaces the first.
pub proof fn lemma_set_bit16_twice(x: u16, b: u16, v: bool, w: bool)
    requires
        b < 16,
    ensures
        set_bit16(set_bit16(x, b, v), b, w) == set_bit16(x, b, w),
{
    assert(set_bit16(set_bit16(x, b, v), b, w) == set_bit16(x, b, w)) by (bit_vector)
        requires
            b < 16,
    ;
}

/// Writes of two different bits can be done in either order.
pub proof fn lemma_set_bit16_commute(x: u16, b: u16, v: bool, c: u16, w: bool)
    requires
        b < 16,
        c < 16,
        b != c,
    ensures
        set_bit16(set_bit16(x, b, v), c, w) == set_bit16(set_bit16(x, c, w), b, v),
{
    assert(set_bit16(set_bit16(x, b, v), c, w) == set_bit16(set_bit16(x, c, w), b, v)) by (bit_vector)
        requires
            b < 16,
            c < 16,
            b != c,
    ;
}

/// A second write of the same field replaces the first.
pub proof fn lemma_set_field16_twice(x: u16, low: u16, high: u16, v: u16, w: u16)
    requires
        low <= high < 16,
    ensures
        set_field16(set_field16(x, low, high, v), low, high, w) == set_field16(x, low, high, w),
{
    assert(set_field16(set_field16(x, low, high, v), low, high, w) == set_field16(x, low, high, w))
        by (bit_vector)
        requires
            low <= high < 16,
    ;
}

/// A two-bit field at `low`: its value is below 4, and the field's bits in
/// place equal `k << low` exactly when the value is `k`.
pub proof fn lemma_region2(x: u16, low: u16)
    requires
        low < 15,
    ensures
        field16(x, low, (low + 1) as u16) < 4,
        forall|k: u16|
            k < 4 ==> ((x & mask16(low, (low + 1) as u16) == ((k << low) as u16)) <==> field16(
                x,
                low,
                (low + 1) as u16,
            ) == k),
{
    assert(field16(x, low, (low + 1) as u16) < 4 && forall|k: u16|
        k < 4 ==> ((x & mask16(low, (low + 1) as u16) == ((k << low) as u16)) <==> field16(
            x,
            low,
            (low + 1) as u16,
        ) == k)) by (bit_vector)
        requires
            low < 15,
    ;
}

/// A three-bit field at `low`: its value is below 8, and the field's bits in
/// place equal `k << low` exactly when the value is `k`.
pub proof fn lemma_region3(x: u16, low: u16)
    requires
        low < 14,
    ensures
        field16(x, low, (low + 2) as u16) < 8,
        forall|k: u16|
            k < 8 ==> ((x & mask16(low, (low + 2) as u16) == ((k << low) as u16)) <==> field16(
                x,
                low,
                (low + 2) as u16,
            ) == k),
{
    assert(field16(x, low, (low + 2) as u16) < 8 && forall|k: u16|
        k < 8 ==> ((x & mask16(low, (low + 2) as u16) == ((k << low) as u16)) <==> field16(
            x,
            low,
            (low + 2) as u16,
        ) == k)) by (bit_vector)
        requires
            low < 14,
    ;
}

/// Writing the bits `v` into the field `m` and reading the field back gives
/// the written bits, cut to the field.
pub broadcast proof fn lemma_masked_write_read16(x: u16, v: u16, m: u16)
    ensures
        #[trigger] (((x & !m) | (v & m)) & m) == v & m,
{
    assert((((x & !m) | (v & m)) & m) == v & m) by (bit_vector);
}

/// Writing the bits `v` into the field `m` leaves every bit outside the field
/// unchanged.
pub proof fn lemma_masked_write_other16(x: u16, v: u16, m: u16, other: u16)
    requires
        m & other == 0,
    ensures
        ((x & !m) | (v & m)) & other == x & other,
{
    assert(((x & !m) | (v & m)) & other == x & other) by (bit_vector)
        requires
            m & other == 0,
    ;
}

/// Writing the bits `v` into the field `m` and reading the field back gives
/// the written bits, cut to the field.
pub broadcast proof fn lemma_masked_write_read32(x: u32, v: u32, m: u32)
    ensures
        #[trigger] (((x & !m) | (v & m)) & m) == v & m,
{
    assert((((x & !m) | (v & m)) & m) == v & m) by (bit_vector);
}

/// Writing the bits `v` into the field `m` leaves every bit outside the field
/// unchanged.
pub proof fn lemma_masked_write_other32(x: u32, v: u32, m: u32, other: u32)
    requires
        m & other == 0,
    ensures
        ((x & !m) | (v & m)) & other == x & other,
{
    assert(((x & !m) | (v & m)) & other == x & other) by (bit_vector)
        requires
            m & other == 0,
    ;
}

/// A value below 4 fits a two-bit field whole.
pub proof fn lemma_fits_two_bits(v: u16)
    requires
        v < 4,
    ensures
        v & mask16(0, 1) == v,
{
    assert(v & mask16(0, 1) == v) by (bit_vector)
        requires
            v < 4,
    ;
}

pub broadcast group group_bits {
    lemma_bit16_of_set,
    lemma_bit8_of_set,
    lemma_field16_of_set,
    lemma_bit16_of_set_field,
    lemma_field16_of_set_other,
    lemma_field16_of_set_bit,
}

} // verus!
