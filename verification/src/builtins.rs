//! Software fallbacks for the bit-counting helpers that the compiler expects.
use vstd::prelude::*;
use vstd::std_specs::bits::{u32_leading_zeros, axiom_u32_leading_zeros};

verus! {

/// `r` is the number of leading zero bits of `x` read as a 32-bit word: the
/// highest set bit of `x` is bit `31 - r` (and `r == 32` exactly when `x == 0`).
pub open spec fn is_leading_zeros32(x: u64, r: u64) -> bool {
    &&& r <= 32
    &&& x >> ((32 - r) as u64) == 0
    &&& r < 32 ==> (x >> ((31 - r) as u64)) & 1 == 1
}

/// The halving search that `__clzsi2` performs, step by step.
spec fn clz_search(x: u64) -> u64 {
    let y1 = x >> 16u64;
    let n1: u64 = if y1 != 0 { 16 } else { 32 };
    let x1 = if y1 != 0 { y1 } else { x };
    let y2 = x1 >> 8u64;
    let n2: u64 = if y2 != 0 { (n1 - 8) as u64 } else { n1 };
    let x2 = if y2 != 0 { y2 } else { x1 };
    let y3 = x2 >> 4u64;
    let n3: u64 = if y3 != 0 { (n2 - 4) as u64 } else { n2 };
    let x3 = if y3 != 0 { y3 } else { x2 };
    let y4 = x3 >> 2u64;
    let n4: u64 = if y4 != 0 { (n3 - 2) as u64 } else { n3 };
    let x4 = if y4 != 0 { y4 } else { x3 };
    let y5 = x4 >> 1u64;
    if y5 != 0 {
        (n4 - 2) as u64
    } else {
        (n4 - x4) as u64
    }
}

proof fn lemma_clz_search(x: u64)
    by (bit_vector)
    ensures
        x >> 32u64 == 0 ==> is_leading_zeros32(x, clz_search(x)),
        x >> 32u64 != 0 ==> clz_search(x) == 0,
{
}

proof fn lemma_shr1_zero(x: u64)
    by (bit_vector)
    ensures
        x >> 1u64 == 0 ==> x <= 1,
{
}

/// Counts the leading zero bits of `x` as a 32-bit word.
///
/// Values at or above `2^32` have their highest set bit above bit 31 and give
/// `0`.
pub fn __clzsi2(x: usize) -> (r: usize)
    ensures
        (x as u64) >> 32u64 == 0 ==> is_leading_zeros32(x as u64, r as u64),
        (x as u64) >> 32u64 != 0 ==> r == 0,
{
    let ghost x0 = x as u64;
    let mut x: u64 = x as u64;
    let mut y: u64;
    let mut n: u64 = 32;
    y = x >> 16u64;
    if y != 0 {
        n = n - 16;
        x = y;
    }
    y = x >> 8u64;
    if y != 0 {
        n = n - 8;
        x = y;
    }
    y = x >> 4u64;
    if y != 0 {
        n = n - 4;
        x = y;
    }
    y = x >> 2u64;
    if y != 0 {
        n = n - 2;
        x = y;
    }
    y = x >> 1u64;
    proof {
        lemma_clz_search(x0);
        lemma_shr1_zero(x);
    }
    if y != 0 {
        (n - 2) as usize
    } else {
        (n - x) as usize
    }
}

/// At most one count satisfies [`is_leading_zeros32`].
proof fn lemma_leading_zeros32_unique(x: u64, r: u64, z: u64)
    by (bit_vector)
    requires
        is_leading_zeros32(x, r),
        is_leading_zeros32(x, z),
    ensures
        r == z,
{
}

/// The count that `u32::leading_zeros` gives satisfies [`is_leading_zeros32`].
proof fn lemma_u32_leading_zeros_is_leading_zeros32(i: u32, z: u32)
    by (bit_vector)
    requires
        z <= 32,
        z < 32 ==> (i >> ((31 - z) as u32)) & 1u32 != 0u32,
        i >> ((32 - z) as u32) == 0,
    ensures
        is_leading_zeros32(i as u64, z as u64),
{
}

/// `__clzsi2` counts what `u32::leading_zeros` counts, for every value that
/// fits in 32 bits.
pub proof fn lemma_clzsi2_is_u32_leading_zeros(x: usize, r: usize)
    requires
        (x as u64) >> 32u64 == 0,
        is_leading_zeros32(x as u64, r as u64),
    ensures
        r == u32_leading_zeros(x as u32),
{
    let i = x as u32;
    assert((x as u32) as u64 == x as u64) by (bit_vector)
        requires
            (x as u64) >> 32u64 == 0,
    ;
    axiom_u32_leading_zeros(i);
    let z = u32_leading_zeros(i) as u32;
    lemma_u32_leading_zeros_is_leading_zeros32(i, z);
    lemma_leading_zeros32_unique(x as u64, r as u64, z as u64);
}

} // verus!
