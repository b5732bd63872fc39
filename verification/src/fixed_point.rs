//! Fixed point math types and operations.
use vstd::prelude::*;
use core::ops::{Add, Div, Mul, Neg, Shl, Shr, Sub};
use vstd::std_specs::ops::NegSpec;
use vstd::std_specs::ops::{
    AddSpecImpl, DivSpecImpl, MulSpecImpl, NegSpecImpl, ShlSpecImpl, ShrSpecImpl, SubSpecImpl,
};
use vstd::arithmetic::power2::{pow2, lemma_pow2_pos, lemma2_to64};
use vstd::bits::lemma_u32_shr_is_div;
use vstd::wrapping::i32_specs::signed_crop;

verus! {

/// Fixed point `T` value with `F` fractional bits.
///
/// The value holds the raw integer `num`, which stands for `num / 2^F`.
#[derive(Debug, Copy, Clone, Default, PartialEq, Eq, PartialOrd, Ord)]
pub struct Fx<T, const F: usize> {
    num: T,
}

impl<T, const F: usize> View for Fx<T, F> {
    type V = T;

    /// The raw integer inside.
    closed spec fn view(&self) -> T {
        self.num
    }
}

/// Integer division rounding toward zero, as Rust's `/` does on signed integers.
pub open spec fn trunc_div(a: int, b: int) -> int {
    if a >= 0 {
        if b > 0 {
            a / b
        } else {
            -(a / (-b))
        }
    } else {
        if b > 0 {
            -((-a) / b)
        } else {
            (-a) / (-b)
        }
    }
}

/// The shift amount that the multiply and divide operators use: `F as u8`.
pub open spec fn frac_shift(f: usize) -> u8 {
    f as u8
}

/// The raw product that a signed multiply shifts down: both raw values
/// widened to `i32` and multiplied with wrapping.
pub open spec fn signed_product(a: int, b: int) -> i32 {
    signed_crop(a * b)
}

/// The raw product that an unsigned multiply shifts down: both raw values
/// widened to `u32` and multiplied with wrapping.
pub open spec fn unsigned_product(a: int, b: int) -> int {
    (a * b) % 0x1_0000_0000
}

/// The scaled dividend of a divide: the raw value widened to `i32` and
/// multiplied by `2^f` with wrapping.
pub open spec fn scaled_dividend(a: i32, f: u8) -> i32 {
    signed_crop(a * pow2(f as nat))
}

/// `2^f` as an `i32` shift gives it (with `1 << 31` wrapping to `i32::MIN`).
proof fn lemma_one_shl_i32(f: u8)
    requires
        f < 32,
    ensures
        (1i32 << f) as int == signed_crop(pow2(f as nat) as int),
{
    lemma_pow2_pos(f as nat);
    vstd::bits::lemma_u32_pow2_no_overflow(f as nat);
    if f < 31 {
        assert((1i32 << f) as u32 == 1u32 << (f as u32) && (1i32 << f) >= 0) by (bit_vector)
            requires
                f < 31,
        ;
        vstd::bits::lemma_u32_shl_is_mul(1, f as u32);
    } else {
        assert(1i32 << f == i32::MIN) by (bit_vector)
            requires
                f == 31,
        ;
        lemma2_to64();
    }
}

/// A non-negative `i32` shifted right by `f` is its quotient by `2^f`.
proof fn lemma_i32_shr_is_div(x: i32, f: u8)
    requires
        0 <= x,
        f < 32,
    ensures
        (x >> f) as int == x as int / (pow2(f as nat) as int),
{
    assert((x >> f) as u32 == (x as u32) >> (f as u32) && (x >> f) >= 0) by (bit_vector)
        requires
            0 <= x,
            f < 32,
    ;
    lemma_u32_shr_is_div(x as u32, f as u32);
}

/// Signed `i32` division rounding toward zero: the quotient that the GBA
/// BIOS `Div` call returns, computed here from the magnitudes.
fn div(numerator: i32, denominator: i32) -> (r: i32)
    requires
        denominator != 0,
        !(numerator == i32::MIN && denominator == -1),
    ensures
        r as int == trunc_div(numerator as int, denominator as int),
{
    let un: u32 = if numerator < 0 { (-(numerator as i64)) as u32 } else { numerator as u32 };
    let ud: u32 = if denominator < 0 { (-(denominator as i64)) as u32 } else { denominator as u32 };
    let q: u32 = un / ud;
    proof {
        assert(q as int == (un as int) / (ud as int));
        vstd::arithmetic::div_mod::lemma_div_is_ordered_by_denominator(un as int, 1, ud as int);
        vstd::arithmetic::div_mod::lemma_div_basics(un as int);
    }
    if (numerator < 0) != (denominator < 0) {
        (0i64 - q as i64) as i32
    } else {
        proof {
            if numerator == i32::MIN && denominator < 0 {
                assert(ud >= 2);
                vstd::arithmetic::div_mod::lemma_div_is_ordered_by_denominator(un as int, 2, ud as int);
            }
        }
        q as i32
    }
}

impl<T, const F: usize> Fx<T, F> {
    /// The value holding the raw integer `r`.
    pub closed spec fn spec_from_raw(r: T) -> Self {
        Fx { num: r }
    }

    /// Uses the provided value directly.
    pub fn from_raw(r: T) -> (s: Self)
        ensures
            s@ == r,
            s == Self::spec_from_raw(r),
    {
        Fx { num: r }
    }

    /// Unwraps the inner value.
    pub fn into_raw(self) -> (r: T)
        ensures
            r == self@,
    {
        self.num
    }

    /// Casts the base type, keeping the fractional bit quantity the same.
    pub fn cast_inner<Z, C: Fn(T) -> Z>(self, op: C) -> (r: Fx<Z, F>)
        requires
            op.requires((self@,)),
        ensures
            op.ensures((self@,), r@),
    {
        Fx { num: op(self.num) }
    }
}

/// The raw value of a spec-built value is the integer it was built from.
pub broadcast proof fn lemma_view_spec_from_raw<T, const F: usize>(r: T)
    ensures
        #[trigger] Fx::<T, F>::spec_from_raw(r)@ == r,
{
}

impl<const F: usize> Add for Fx<i8, F> {
    type Output = Self;

    fn add(self, rhs: Fx<i8, F>) -> (r: Self::Output)
        ensures
            r@ == self@ + rhs@,
    {
        Fx { num: self.num + rhs.num }
    }
}

impl<const F: usize> AddSpecImpl for Fx<i8, F> {
    open spec fn obeys_add_spec() -> bool {
        true
    }

    open spec fn add_req(self, rhs: Self) -> bool {
        i8::MIN <= self@ + rhs@ <= i8::MAX
    }

    open spec fn add_spec(self, rhs: Self) -> Self {
        Self::spec_from_raw((self@ + rhs@) as i8)
    }
}

impl<const F: usize> Sub for Fx<i8, F> {
    type Output = Self;

    fn sub(self, rhs: Fx<i8, F>) -> (r: Self::Output)
        ensures
            r@ == self@ - rhs@,
    {
        Fx { num: self.num - rhs.num }
    }
}

impl<const F: usize> SubSpecImpl for Fx<i8, F> {
    open spec fn obeys_sub_spec() -> bool {
        true
    }

    open spec fn sub_req(self, rhs: Self) -> bool {
        i8::MIN <= self@ - rhs@ <= i8::MAX
    }

    open spec fn sub_spec(self, rhs: Self) -> Self {
        Self::spec_from_raw((self@ - rhs@) as i8)
    }
}

impl<const F: usize> Shl<u32> for Fx<i8, F> {
    type Output = Self;

    fn shl(self, rhs: u32) -> (r: Self::Output)
        ensures
            r@ == self@ << rhs,
    {
        Fx { num: self.num << rhs }
    }
}

impl<const F: usize> ShlSpecImpl<u32> for Fx<i8, F> {
    open spec fn obeys_shl_spec() -> bool {
        true
    }

    open spec fn shl_req(self, rhs: u32) -> bool {
        rhs < 8
    }

    open spec fn shl_spec(self, rhs: u32) -> Self {
        Self::spec_from_raw(self@ << rhs)
    }
}

impl<const F: usize> Shr<u32> for Fx<i8, F> {
    type Output = Self;

    fn shr(self, rhs: u32) -> (r: Self::Output)
        ensures
            r@ == self@ >> rhs,
    {
        Fx { num: self.num >> rhs }
    }
}

impl<const F: usize> ShrSpecImpl<u32> for Fx<i8, F> {
    open spec fn obeys_shr_spec() -> bool {
        true
    }

    open spec fn shr_req(self, rhs: u32) -> bool {
        rhs < 8
    }

    open spec fn shr_spec(self, rhs: u32) -> Self {
        Self::spec_from_raw(self@ >> rhs)
    }
}

impl<const F: usize> Neg for Fx<i8, F> {
    type Output = Self;

    fn neg(self) -> (r: Self::Output)
        ensures
            r@ == -self@,
    {
        Fx { num: -self.num }
    }
}

impl<const F: usize> NegSpecImpl for Fx<i8, F> {
    open spec fn obeys_neg_spec() -> bool {
        true
    }

    open spec fn neg_req(self) -> bool {
        self@ != i8::MIN
    }

    open spec fn neg_spec(self) -> Self {
        Self::spec_from_raw((-self@) as i8)
    }
}

impl<const F: usize> Mul for Fx<i8, F> {
    type Output = Self;

    /// The raw product rounded toward zero at `F` fractional bits; a product
    /// of exactly `i32::MIN` saturates to the type's minimum.
    fn mul(self, rhs: Fx<i8, F>) -> (r: Self::Output)
        ensures
            r@ == if signed_product(self@ as int, rhs@ as int) == i32::MIN {
                i8::MIN
            } else {
                trunc_div(signed_product(self@ as int, rhs@ as int) as int, pow2(frac_shift(F) as nat) as int) as i8
            },
    {
        let pre_shift = (self.num as i32).wrapping_mul(rhs.num as i32);
        proof {
            lemma_pow2_pos(frac_shift(F) as nat);
        }
        if pre_shift < 0 {
            if pre_shift == i32::MIN {
                Fx { num: i8::MIN }
            } else {
                proof {
                    lemma_i32_shr_is_div((-pre_shift) as i32, F as u8);
                }
                Fx { num: (-((-pre_shift) >> F as u8)) as i8 }
            }
        } else {
            proof {
                lemma_i32_shr_is_div(pre_shift, F as u8);
            }
            Fx { num: (pre_shift >> F as u8) as i8 }
        }
    }
}

impl<const F: usize> MulSpecImpl for Fx<i8, F> {
    open spec fn obeys_mul_spec() -> bool {
        true
    }

    open spec fn mul_req(self, rhs: Self) -> bool {
        frac_shift(F) < 32
    }

    open spec fn mul_spec(self, rhs: Self) -> Self {
        Self::spec_from_raw(if signed_product(self@ as int, rhs@ as int) == i32::MIN { i8::MIN } else { trunc_div(signed_product(self@ as int, rhs@ as int) as int, pow2(frac_shift(F) as nat) as int) as i8 })
    }
}

impl<const F: usize> Div for Fx<i8, F> {
    type Output = Self;

    /// The raw value scaled up by `2^F` (wrapping in `i32`), divided by the
    /// other raw value rounding toward zero.
    fn div(self, rhs: Fx<i8, F>) -> (r: Self::Output)
        ensures
            r@ == trunc_div(scaled_dividend(self@ as i32, frac_shift(F)) as int, (rhs@ as i32) as int) as i8,
    {
        proof {
            lemma_one_shl_i32(F as u8);
        }
        let mul_output: i32 = (self.num as i32).wrapping_mul(1 << F as u8);
        proof {
            lemma_wrapping_scale(self@ as i32, F as u8);
        }
        let divide_result: i32 = div(mul_output, rhs.num as i32);
        Fx { num: divide_result as i8 }
    }
}

impl<const F: usize> DivSpecImpl for Fx<i8, F> {
    open spec fn obeys_div_spec() -> bool {
        true
    }

    open spec fn div_req(self, rhs: Self) -> bool {
        &&& frac_shift(F) < 32
        &&& (rhs@ as i32) != 0
        &&& !(scaled_dividend(self@ as i32, frac_shift(F)) == i32::MIN && (rhs@ as i32) == -1)
    }

    open spec fn div_spec(self, rhs: Self) -> Self {
        Self::spec_from_raw(trunc_div(scaled_dividend(self@ as i32, frac_shift(F)) as int, (rhs@ as i32) as int) as i8)
    }
}

impl<const F: usize> Add for Fx<i16, F> {
    type Output = Self;

    fn add(self, rhs: Fx<i16, F>) -> (r: Self::Output)
        ensures
            r@ == self@ + rhs@,
    {
        Fx { num: self.num + rhs.num }
    }
}

impl<const F: usize> AddSpecImpl for Fx<i16, F> {
    open spec fn obeys_add_spec() -> bool {
        true
    }

    open spec fn add_req(self, rhs: Self) -> bool {
        i16::MIN <= self@ + rhs@ <= i16::MAX
    }

    open spec fn add_spec(self, rhs: Self) -> Self {
        Self::spec_from_raw((self@ + rhs@) as i16)
    }
}

impl<const F: usize> Sub for Fx<i16, F> {
    type Output = Self;

    fn sub(self, rhs: Fx<i16, F>) -> (r: Self::Output)
        ensures
            r@ == self@ - rhs@,
    {
        Fx { num: self.num - rhs.num }
    }
}

impl<const F: usize> SubSpecImpl for Fx<i16, F> {
    open spec fn obeys_sub_spec() -> bool {
        true
    }

    open spec fn sub_req(self, rhs: Self) -> bool {
        i16::MIN <= self@ - rhs@ <= i16::MAX
    }

    open spec fn sub_spec(self, rhs: Self) -> Self {
        Self::spec_from_raw((self@ - rhs@) as i16)
    }
}

impl<const F: usize> Shl<u32> for Fx<i16, F> {
    type Output = Self;

    fn shl(self, rhs: u32) -> (r: Self::Output)
        ensures
            r@ == self@ << rhs,
    {
        Fx { num: self.num << rhs }
    }
}

impl<const F: usize> ShlSpecImpl<u32> for Fx<i16, F> {
    open spec fn obeys_shl_spec() -> bool {
        true
    }

    open spec fn shl_req(self, rhs: u32) -> bool {
        rhs < 16
    }

    open spec fn shl_spec(self, rhs: u32) -> Self {
        Self::spec_from_raw(self@ << rhs)
    }
}

impl<const F: usize> Shr<u32> for Fx<i16, F> {
    type Output = Self;

    fn shr(self, rhs: u32) -> (r: Self::Output)
        ensures
            r@ == self@ >> rhs,
    {
        Fx { num: self.num >> rhs }
    }
}

impl<const F: usize> ShrSpecImpl<u32> for Fx<i16, F> {
    open spec fn obeys_shr_spec() -> bool {
        true
    }

    open spec fn shr_req(self, rhs: u32) -> bool {
        rhs < 16
    }

    open spec fn shr_spec(self, rhs: u32) -> Self {
        Self::spec_from_raw(self@ >> rhs)
    }
}

impl<const F: usize> Neg for Fx<i16, F> {
    type Output = Self;

    fn neg(self) -> (r: Self::Output)
        ensures
            r@ == -self@,
    {
        Fx { num: -self.num }
    }
}

impl<const F: usize> NegSpecImpl for Fx<i16, F> {
    open spec fn obeys_neg_spec() -> bool {
        true
    }

    open spec fn neg_req(self) -> bool {
        self@ != i16::MIN
    }

    open spec fn neg_spec(self) -> Self {
        Self::spec_from_raw((-self@) as i16)
    }
}

impl<const F: usize> Mul for Fx<i16, F> {
    type Output = Self;

    /// The raw product rounded toward zero at `F` fractional bits; a product
    /// of exactly `i32::MIN` saturates to the type's minimum.
    fn mul(self, rhs: Fx<i16, F>) -> (r: Self::Output)
        ensures
            r@ == if signed_product(self@ as int, rhs@ as int) == i32::MIN {
                i16::MIN
            } else {
                trunc_div(signed_product(self@ as int, rhs@ as int) as int, pow2(frac_shift(F) as nat) as int) as i16
            },
    {
        let pre_shift = (self.num as i32).wrapping_mul(rhs.num as i32);
        proof {
            lemma_pow2_pos(frac_shift(F) as nat);
        }
        if pre_shift < 0 {
            if pre_shift == i32::MIN {
                Fx { num: i16::MIN }
            } else {
                proof {
                    lemma_i32_shr_is_div((-pre_shift) as i32, F as u8);
                }
                Fx { num: (-((-pre_shift) >> F as u8)) as i16 }
            }
        } else {
            proof {
                lemma_i32_shr_is_div(pre_shift, F as u8);
            }
            Fx { num: (pre_shift >> F as u8) as i16 }
        }
    }
}

impl<const F: usize> MulSpecImpl for Fx<i16, F> {
    open spec fn obeys_mul_spec() -> bool {
        true
    }

    open spec fn mul_req(self, rhs: Self) -> bool {
        frac_shift(F) < 32
    }

    open spec fn mul_spec(self, rhs: Self) -> Self {
        Self::spec_from_raw(if signed_product(self@ as int, rhs@ as int) == i32::MIN { i16::MIN } else { trunc_div(signed_product(self@ as int, rhs@ as int) as int, pow2(frac_shift(F) as nat) as int) as i16 })
    }
}

impl<const F: usize> Div for Fx<i16, F> {
    type Output = Self;

    /// The raw value scaled up by `2^F` (wrapping in `i32`), divided by the
    /// other raw value rounding toward zero.
    fn div(self, rhs: Fx<i16, F>) -> (r: Self::Output)
        ensures
            r@ == trunc_div(scaled_dividend(self@ as i32, frac_shift(F)) as int, (rhs@ as i32) as int) as i16,
    {
        proof {
            lemma_one_shl_i32(F as u8);
        }
        let mul_output: i32 = (self.num as i32).wrapping_mul(1 << F as u8);
        proof {
            lemma_wrapping_scale(self@ as i32, F as u8);
        }
        let divide_result: i32 = div(mul_output, rhs.num as i32);
        Fx { num: divide_result as i16 }
    }
}

impl<const F: usize> DivSpecImpl for Fx<i16, F> {
    open spec fn obeys_div_spec() -> bool {
        true
    }

    open spec fn div_req(self, rhs: Self) -> bool {
        &&& frac_shift(F) < 32
        &&& (rhs@ as i32) != 0
        &&& !(scaled_dividend(self@ as i32, frac_shift(F)) == i32::MIN && (rhs@ as i32) == -1)
    }

    open spec fn div_spec(self, rhs: Self) -> Self {
        Self::spec_from_raw(trunc_div(scaled_dividend(self@ as i32, frac_shift(F)) as int, (rhs@ as i32) as int) as i16)
    }
}

impl<const F: usize> Fx<i16, F> {
    /// Gives the smallest positive non-zero value.
    pub fn precision() -> (r: Self)
        ensures
            r@ == 1,
    {
        Fx { num: 1 }
    }

    /// Makes a value with the integer part shifted into place.
    pub fn from_int_part(i: i16) -> (r: Self)
        requires
            frac_shift(F) < 16,
        ensures
            r@ == i << frac_shift(F),
    {
        Fx { num: i << F as u8 }
    }

    /// Changes the fractional bit quantity, keeping the base type the same.
    ///
    /// The raw value moves left by `Y - F` bits when that is positive, and
    /// right by `F - Y` bits otherwise.
    pub fn adjust_fractional_bits<const Y: usize>(self) -> (r: Fx<i16, Y>)
        requires
            i32::MIN <= (Y as i32) - (F as i32) <= i32::MAX,
            -16 < (Y as i32) - (F as i32) < 16,
        ensures
            r@ == if (Y as i32) - (F as i32) > 0 {
                self@ << ((Y as i32) - (F as i32)) as u32
            } else {
                self@ >> (-((Y as i32) - (F as i32))) as u32
            },
    {
        let leftward_movement: i32 = Y as i32 - F as i32;
        Fx {
            num: if leftward_movement > 0 {
                self.num << leftward_movement
            } else {
                self.num >> (-leftward_movement)
            },
        }
    }
}

impl<const F: usize> Add for Fx<i32, F> {
    type Output = Self;

    fn add(self, rhs: Fx<i32, F>) -> (r: Self::Output)
        ensures
            r@ == self@ + rhs@,
    {
        Fx { num: self.num + rhs.num }
    }
}

impl<const F: usize> AddSpecImpl for Fx<i32, F> {
    open spec fn obeys_add_spec() -> bool {
        true
    }

    open spec fn add_req(self, rhs: Self) -> bool {
        i32::MIN <= self@ + rhs@ <= i32::MAX
    }

    open spec fn add_spec(self, rhs: Self) -> Self {
        Self::spec_from_raw((self@ + rhs@) as i32)
    }
}

impl<const F: usize> Sub for Fx<i32, F> {
    type Output = Self;

    fn sub(self, rhs: Fx<i32, F>) -> (r: Self::Output)
        ensures
            r@ == self@ - rhs@,
    {
        Fx { num: self.num - rhs.num }
    }
}

impl<const F: usize> SubSpecImpl for Fx<i32, F> {
    open spec fn obeys_sub_spec() -> bool {
        true
    }

    open spec fn sub_req(self, rhs: Self) -> bool {
        i32::MIN <= self@ - rhs@ <= i32::MAX
    }

    open spec fn sub_spec(self, rhs: Self) -> Self {
        Self::spec_from_raw((self@ - rhs@) as i32)
    }
}

impl<const F: usize> Shl<u32> for Fx<i32, F> {
    type Output = Self;

    fn shl(self, rhs: u32) -> (r: Self::Output)
        ensures
            r@ == self@ << rhs,
    {
        Fx { num: self.num << rhs }
    }
}

impl<const F: usize> ShlSpecImpl<u32> for Fx<i32, F> {
    open spec fn obeys_shl_spec() -> bool {
        true
    }

    open spec fn shl_req(self, rhs: u32) -> bool {
        rhs < 32
    }

    open spec fn shl_spec(self, rhs: u32) -> Self {
        Self::spec_from_raw(self@ << rhs)
    }
}

impl<const F: usize> Shr<u32> for Fx<i32, F> {
    type Output = Self;

    fn shr(self, rhs: u32) -> (r: Self::Output)
        ensures
            r@ == self@ >> rhs,
    {
        Fx { num: self.num >> rhs }
    }
}

impl<const F: usize> ShrSpecImpl<u32> for Fx<i32, F> {
    open spec fn obeys_shr_spec() -> bool {
        true
    }

    open spec fn shr_req(self, rhs: u32) -> bool {
        rhs < 32
    }

    open spec fn shr_spec(self, rhs: u32) -> Self {
        Self::spec_from_raw(self@ >> rhs)
    }
}

impl<const F: usize> Neg for Fx<i32, F> {
    type Output = Self;

    fn neg(self) -> (r: Self::Output)
        ensures
            r@ == -self@,
    {
        Fx { num: -self.num }
    }
}

impl<const F: usize> NegSpecImpl for Fx<i32, F> {
    open spec fn obeys_neg_spec() -> bool {
        true
    }

    open spec fn neg_req(self) -> bool {
        self@ != i32::MIN
    }

    open spec fn neg_spec(self) -> Self {
        Self::spec_from_raw((-self@) as i32)
    }
}

impl<const F: usize> Mul for Fx<i32, F> {
    type Output = Self;

    /// The raw product rounded toward zero at `F` fractional bits; a product
    /// of exactly `i32::MIN` saturates to the type's minimum.
    fn mul(self, rhs: Fx<i32, F>) -> (r: Self::Output)
        ensures
            r@ == if signed_product(self@ as int, rhs@ as int) == i32::MIN {
                i32::MIN
            } else {
                trunc_div(signed_product(self@ as int, rhs@ as int) as int, pow2(frac_shift(F) as nat) as int) as i32
            },
    {
        let pre_shift = (self.num as i32).wrapping_mul(rhs.num as i32);
        proof {
            lemma_pow2_pos(frac_shift(F) as nat);
        }
        if pre_shift < 0 {
            if pre_shift == i32::MIN {
                Fx { num: i32::MIN }
            } else {
                proof {
                    lemma_i32_shr_is_div((-pre_shift) as i32, F as u8);
                }
                Fx { num: (-((-pre_shift) >> F as u8)) as i32 }
            }
        } else {
            proof {
                lemma_i32_shr_is_div(pre_shift, F as u8);
            }
            Fx { num: (pre_shift >> F as u8) as i32 }
        }
    }
}

impl<const F: usize> MulSpecImpl for Fx<i32, F> {
    open spec fn obeys_mul_spec() -> bool {
        true
    }

    open spec fn mul_req(self, rhs: Self) -> bool {
        frac_shift(F) < 32
    }

    open spec fn mul_spec(self, rhs: Self) -> Self {
        Self::spec_from_raw(if signed_product(self@ as int, rhs@ as int) == i32::MIN { i32::MIN } else { trunc_div(signed_product(self@ as int, rhs@ as int) as int, pow2(frac_shift(F) as nat) as int) as i32 })
    }
}

impl<const F: usize> Div for Fx<i32, F> {
    type Output = Self;

    /// The raw value scaled up by `2^F` (wrapping in `i32`), divided by the
    /// other raw value rounding toward zero.
    fn div(self, rhs: Fx<i32, F>) -> (r: Self::Output)
        ensures
            r@ == trunc_div(scaled_dividend(self@ as i32, frac_shift(F)) as int, (rhs@ as i32) as int) as i32,
    {
        proof {
            lemma_one_shl_i32(F as u8);
        }
        let mul_output: i32 = (self.num as i32).wrapping_mul(1 << F as u8);
        proof {
            lemma_wrapping_scale(self@ as i32, F as u8);
        }
        let divide_result: i32 = div(mul_output, rhs.num as i32);
        Fx { num: divide_result as i32 }
    }
}

impl<const F: usize> DivSpecImpl for Fx<i32, F> {
    open spec fn obeys_div_spec() -> bool {
        true
    }

    open spec fn div_req(self, rhs: Self) -> bool {
        &&& frac_shift(F) < 32
        &&& (rhs@ as i32) != 0
        &&& !(scaled_dividend(self@ as i32, frac_shift(F)) == i32::MIN && (rhs@ as i32) == -1)
    }

    open spec fn div_spec(self, rhs: Self) -> Self {
        Self::spec_from_raw(trunc_div(scaled_dividend(self@ as i32, frac_shift(F)) as int, (rhs@ as i32) as int) as i32)
    }
}

impl<const F: usize> Fx<i32, F> {
    /// Gives the smallest positive non-zero value.
    pub fn precision() -> (r: Self)
        ensures
            r@ == 1,
    {
        Fx { num: 1 }
    }

    /// Makes a value with the integer part shifted into place.
    pub fn from_int_part(i: i32) -> (r: Self)
        requires
            frac_shift(F) < 32,
        ensures
            r@ == i << frac_shift(F),
    {
        Fx { num: i << F as u8 }
    }

    /// Changes the fractional bit quantity, keeping the base type the same.
    ///
    /// The raw value moves left by `Y - F` bits when that is positive, and
    /// right by `F - Y` bits otherwise.
    pub fn adjust_fractional_bits<const Y: usize>(self) -> (r: Fx<i32, Y>)
        requires
            i32::MIN <= (Y as i32) - (F as i32) <= i32::MAX,
            -32 < (Y as i32) - (F as i32) < 32,
        ensures
            r@ == if (Y as i32) - (F as i32) > 0 {
                self@ << ((Y as i32) - (F as i32)) as u32
            } else {
                self@ >> (-((Y as i32) - (F as i32))) as u32
            },
    {
        let leftward_movement: i32 = Y as i32 - F as i32;
        Fx {
            num: if leftward_movement > 0 {
                self.num << leftward_movement
            } else {
                self.num >> (-leftward_movement)
            },
        }
    }
}

impl<const F: usize> Add for Fx<u8, F> {
    type Output = Self;

    fn add(self, rhs: Fx<u8, F>) -> (r: Self::Output)
        ensures
            r@ == self@ + rhs@,
    {
        Fx { num: self.num + rhs.num }
    }
}

impl<const F: usize> AddSpecImpl for Fx<u8, F> {
    open spec fn obeys_add_spec() -> bool {
        true
    }

    open spec fn add_req(self, rhs: Self) -> bool {
        u8::MIN <= self@ + rhs@ <= u8::MAX
    }

    open spec fn add_spec(self, rhs: Self) -> Self {
        Self::spec_from_raw((self@ + rhs@) as u8)
    }
}

impl<const F: usize> Sub for Fx<u8, F> {
    type Output = Self;

    fn sub(self, rhs: Fx<u8, F>) -> (r: Self::Output)
        ensures
            r@ == self@ - rhs@,
    {
        Fx { num: self.num - rhs.num }
    }
}

impl<const F: usize> SubSpecImpl for Fx<u8, F> {
    open spec fn obeys_sub_spec() -> bool {
        true
    }

    open spec fn sub_req(self, rhs: Self) -> bool {
        u8::MIN <= self@ - rhs@ <= u8::MAX
    }

    open spec fn sub_spec(self, rhs: Self) -> Self {
        Self::spec_from_raw((self@ - rhs@) as u8)
    }
}

impl<const F: usize> Shl<u32> for Fx<u8, F> {
    type Output = Self;

    fn shl(self, rhs: u32) -> (r: Self::Output)
        ensures
            r@ == self@ << rhs,
    {
        Fx { num: self.num << rhs }
    }
}

impl<const F: usize> ShlSpecImpl<u32> for Fx<u8, F> {
    open spec fn obeys_shl_spec() -> bool {
        true
    }

    open spec fn shl_req(self, rhs: u32) -> bool {
        rhs < 8
    }

    open spec fn shl_spec(self, rhs: u32) -> Self {
        Self::spec_from_raw(self@ << rhs)
    }
}

impl<const F: usize> Shr<u32> for Fx<u8, F> {
    type Output = Self;

    fn shr(self, rhs: u32) -> (r: Self::Output)
        ensures
            r@ == self@ >> rhs,
    {
        Fx { num: self.num >> rhs }
    }
}

impl<const F: usize> ShrSpecImpl<u32> for Fx<u8, F> {
    open spec fn obeys_shr_spec() -> bool {
        true
    }

    open spec fn shr_req(self, rhs: u32) -> bool {
        rhs < 8
    }

    open spec fn shr_spec(self, rhs: u32) -> Self {
        Self::spec_from_raw(self@ >> rhs)
    }
}

impl<const F: usize> Mul for Fx<u8, F> {
    type Output = Self;

    /// The raw product, modulo `2^32`, shifted down by `F` bits.
    fn mul(self, rhs: Fx<u8, F>) -> (r: Self::Output)
        ensures
            r@ == (unsigned_product(self@ as int, rhs@ as int) / (pow2(frac_shift(F) as nat) as int)) as u8,
    {
        let p = (self.num as u32).wrapping_mul(rhs.num as u32);
        proof {
            lemma_u32_shr_is_div(p, (F as u8) as u32);
        }
        Fx { num: (p >> F as u8) as u8 }
    }
}

impl<const F: usize> MulSpecImpl for Fx<u8, F> {
    open spec fn obeys_mul_spec() -> bool {
        true
    }

    open spec fn mul_req(self, rhs: Self) -> bool {
        frac_shift(F) < 32
    }

    open spec fn mul_spec(self, rhs: Self) -> Self {
        Self::spec_from_raw((unsigned_product(self@ as int, rhs@ as int) / (pow2(frac_shift(F) as nat) as int)) as u8)
    }
}

impl<const F: usize> Div for Fx<u8, F> {
    type Output = Self;

    /// The raw value scaled up by `2^F` (wrapping in `i32`), divided by the
    /// other raw value rounding toward zero.
    fn div(self, rhs: Fx<u8, F>) -> (r: Self::Output)
        ensures
            r@ == trunc_div(scaled_dividend(self@ as i32, frac_shift(F)) as int, (rhs@ as i32) as int) as u8,
    {
        proof {
            lemma_one_shl_i32(F as u8);
        }
        let mul_output: i32 = (self.num as i32).wrapping_mul(1 << F as u8);
        proof {
            lemma_wrapping_scale(self@ as i32, F as u8);
        }
        let divide_result: i32 = div(mul_output, rhs.num as i32);
        Fx { num: divide_result as u8 }
    }
}

impl<const F: usize> DivSpecImpl for Fx<u8, F> {
    open spec fn obeys_div_spec() -> bool {
        true
    }

    open spec fn div_req(self, rhs: Self) -> bool {
        &&& frac_shift(F) < 32
        &&& (rhs@ as i32) != 0
        &&& !(scaled_dividend(self@ as i32, frac_shift(F)) == i32::MIN && (rhs@ as i32) == -1)
    }

    open spec fn div_spec(self, rhs: Self) -> Self {
        Self::spec_from_raw(trunc_div(scaled_dividend(self@ as i32, frac_shift(F)) as int, (rhs@ as i32) as int) as u8)
    }
}

impl<const F: usize> Fx<u8, F> {
    /// Gives the smallest positive non-zero value.
    pub fn precision() -> (r: Self)
        ensures
            r@ == 1,
    {
        Fx { num: 1 }
    }

    /// Makes a value with the integer part shifted into place.
    pub fn from_int_part(i: u8) -> (r: Self)
        requires
            frac_shift(F) < 8,
        ensures
            r@ == i << frac_shift(F),
    {
        Fx { num: i << F as u8 }
    }

    /// Changes the fractional bit quantity, keeping the base type the same.
    ///
    /// The raw value moves left by `Y - F` bits when that is positive, and
    /// right by `F - Y` bits otherwise.
    pub fn adjust_fractional_bits<const Y: usize>(self) -> (r: Fx<u8, Y>)
        requires
            i32::MIN <= (Y as i32) - (F as i32) <= i32::MAX,
            -8 < (Y as i32) - (F as i32) < 8,
        ensures
            r@ == if (Y as i32) - (F as i32) > 0 {
                self@ << ((Y as i32) - (F as i32)) as u32
            } else {
                self@ >> (-((Y as i32) - (F as i32))) as u32
            },
    {
        let leftward_movement: i32 = Y as i32 - F as i32;
        Fx {
            num: if leftward_movement > 0 {
                self.num << leftward_movement
            } else {
                self.num >> (-leftward_movement)
            },
        }
    }
}

impl<const F: usize> Add for Fx<u16, F> {
    type Output = Self;

    fn add(self, rhs: Fx<u16, F>) -> (r: Self::Output)
        ensures
            r@ == self@ + rhs@,
    {
        Fx { num: self.num + rhs.num }
    }
}

impl<const F: usize> AddSpecImpl for Fx<u16, F> {
    open spec fn obeys_add_spec() -> bool {
        true
    }

    open spec fn add_req(self, rhs: Self) -> bool {
        u16::MIN <= self@ + rhs@ <= u16::MAX
    }

    open spec fn add_spec(self, rhs: Self) -> Self {
        Self::spec_from_raw((self@ + rhs@) as u16)
    }
}

impl<const F: usize> Sub for Fx<u16, F> {
    type Output = Self;

    fn sub(self, rhs: Fx<u16, F>) -> (r: Self::Output)
        ensures
            r@ == self@ - rhs@,
    {
        Fx { num: self.num - rhs.num }
    }
}

impl<const F: usize> SubSpecImpl for Fx<u16, F> {
    open spec fn obeys_sub_spec() -> bool {
        true
    }

    open spec fn sub_req(self, rhs: Self) -> bool {
        u16::MIN <= self@ - rhs@ <= u16::MAX
    }

    open spec fn sub_spec(self, rhs: Self) -> Self {
        Self::spec_from_raw((self@ - rhs@) as u16)
    }
}

impl<const F: usize> Shl<u32> for Fx<u16, F> {
    type Output = Self;

    fn shl(self, rhs: u32) -> (r: Self::Output)
        ensures
            r@ == self@ << rhs,
    {
        Fx { num: self.num << rhs }
    }
}

impl<const F: usize> ShlSpecImpl<u32> for Fx<u16, F> {
    open spec fn obeys_shl_spec() -> bool {
        true
    }

    open spec fn shl_req(self, rhs: u32) -> bool {
        rhs < 16
    }

    open spec fn shl_spec(self, rhs: u32) -> Self {
        Self::spec_from_raw(self@ << rhs)
    }
}

impl<const F: usize> Shr<u32> for Fx<u16, F> {
    type Output = Self;

    fn shr(self, rhs: u32) -> (r: Self::Output)
        ensures
            r@ == self@ >> rhs,
    {
        Fx { num: self.num >> rhs }
    }
}

impl<const F: usize> ShrSpecImpl<u32> for Fx<u16, F> {
    open spec fn obeys_shr_spec() -> bool {
        true
    }

    open spec fn shr_req(self, rhs: u32) -> bool {
        rhs < 16
    }

    open spec fn shr_spec(self, rhs: u32) -> Self {
        Self::spec_from_raw(self@ >> rhs)
    }
}

impl<const F: usize> Mul for Fx<u16, F> {
    type Output = Self;

    /// The raw product, modulo `2^32`, shifted down by `F` bits.
    fn mul(self, rhs: Fx<u16, F>) -> (r: Self::Output)
        ensures
            r@ == (unsigned_product(self@ as int, rhs@ as int) / (pow2(frac_shift(F) as nat) as int)) as u16,
    {
        let p = (self.num as u32).wrapping_mul(rhs.num as u32);
        proof {
            lemma_u32_shr_is_div(p, (F as u8) as u32);
        }
        Fx { num: (p >> F as u8) as u16 }
    }
}

impl<const F: usize> MulSpecImpl for Fx<u16, F> {
    open spec fn obeys_mul_spec() -> bool {
        true
    }

    open spec fn mul_req(self, rhs: Self) -> bool {
        frac_shift(F) < 32
    }

    open spec fn mul_spec(self, rhs: Self) -> Self {
        Self::spec_from_raw((unsigned_product(self@ as int, rhs@ as int) / (pow2(frac_shift(F) as nat) as int)) as u16)
    }
}

impl<const F: usize> Div for Fx<u16, F> {
    type Output = Self;

    /// The raw value scaled up by `2^F` (wrapping in `i32`), divided by the
    /// other raw value rounding toward zero.
    fn div(self, rhs: Fx<u16, F>) -> (r: Self::Output)
        ensures
            r@ == trunc_div(scaled_dividend(self@ as i32, frac_shift(F)) as int, (rhs@ as i32) as int) as u16,
    {
        proof {
            lemma_one_shl_i32(F as u8);
        }
        let mul_output: i32 = (self.num as i32).wrapping_mul(1 << F as u8);
        proof {
            lemma_wrapping_scale(self@ as i32, F as u8);
        }
        let divide_result: i32 = div(mul_output, rhs.num as i32);
        Fx { num: divide_result as u16 }
    }
}

impl<const F: usize> DivSpecImpl for Fx<u16, F> {
    open spec fn obeys_div_spec() -> bool {
        true
    }

    open spec fn div_req(self, rhs: Self) -> bool {
        &&& frac_shift(F) < 32
        &&& (rhs@ as i32) != 0
        &&& !(scaled_dividend(self@ as i32, frac_shift(F)) == i32::MIN && (rhs@ as i32) == -1)
    }

    open spec fn div_spec(self, rhs: Self) -> Self {
        Self::spec_from_raw(trunc_div(scaled_dividend(self@ as i32, frac_shift(F)) as int, (rhs@ as i32) as int) as u16)
    }
}

impl<const F: usize> Fx<u16, F> {
    /// Gives the smallest positive non-zero value.
    pub fn precision() -> (r: Self)
        ensures
            r@ == 1,
    {
        Fx { num: 1 }
    }

    /// Makes a value with the integer part shifted into place.
    pub fn from_int_part(i: u16) -> (r: Self)
        requires
            frac_shift(F) < 16,
        ensures
            r@ == i << frac_shift(F),
    {
        Fx { num: i << F as u8 }
    }

    /// Changes the fractional bit quantity, keeping the base type the same.
    ///
    /// The raw value moves left by `Y - F` bits when that is positive, and
    /// right by `F - Y` bits otherwise.
    pub fn adjust_fractional_bits<const Y: usize>(self) -> (r: Fx<u16, Y>)
        requires
            i32::MIN <= (Y as i32) - (F as i32) <= i32::MAX,
            -16 < (Y as i32) - (F as i32) < 16,
        ensures
            r@ == if (Y as i32) - (F as i32) > 0 {
                self@ << ((Y as i32) - (F as i32)) as u32
            } else {
                self@ >> (-((Y as i32) - (F as i32))) as u32
            },
    {
        let leftward_movement: i32 = Y as i32 - F as i32;
        Fx {
            num: if leftward_movement > 0 {
                self.num << leftward_movement
            } else {
                self.num >> (-leftward_movement)
            },
        }
    }
}

impl<const F: usize> Add for Fx<u32, F> {
    type Output = Self;

    fn add(self, rhs: Fx<u32, F>) -> (r: Self::Output)
        ensures
            r@ == self@ + rhs@,
    {
        Fx { num: self.num + rhs.num }
    }
}

impl<const F: usize> AddSpecImpl for Fx<u32, F> {
    open spec fn obeys_add_spec() -> bool {
        true
    }

    open spec fn add_req(self, rhs: Self) -> bool {
        u32::MIN <= self@ + rhs@ <= u32::MAX
    }

    open spec fn add_spec(self, rhs: Self) -> Self {
        Self::spec_from_raw((self@ + rhs@) as u32)
    }
}

impl<const F: usize> Sub for Fx<u32, F> {
    type Output = Self;

    fn sub(self, rhs: Fx<u32, F>) -> (r: Self::Output)
        ensures
            r@ == self@ - rhs@,
    {
        Fx { num: self.num - rhs.num }
    }
}

impl<const F: usize> SubSpecImpl for Fx<u32, F> {
    open spec fn obeys_sub_spec() -> bool {
        true
    }

    open spec fn sub_req(self, rhs: Self) -> bool {
        u32::MIN <= self@ - rhs@ <= u32::MAX
    }

    open spec fn sub_spec(self, rhs: Self) -> Self {
        Self::spec_from_raw((self@ - rhs@) as u32)
    }
}

impl<const F: usize> Shl<u32> for Fx<u32, F> {
    type Output = Self;

    fn shl(self, rhs: u32) -> (r: Self::Output)
        ensures
            r@ == self@ << rhs,
    {
        Fx { num: self.num << rhs }
    }
}

impl<const F: usize> ShlSpecImpl<u32> for Fx<u32, F> {
    open spec fn obeys_shl_spec() -> bool {
        true
    }

    open spec fn shl_req(self, rhs: u32) -> bool {
        rhs < 32
    }

    open spec fn shl_spec(self, rhs: u32) -> Self {
        Self::spec_from_raw(self@ << rhs)
    }
}

impl<const F: usize> Shr<u32> for Fx<u32, F> {
    type Output = Self;

    fn shr(self, rhs: u32) -> (r: Self::Output)
        ensures
            r@ == self@ >> rhs,
    {
        Fx { num: self.num >> rhs }
    }
}

impl<const F: usize> ShrSpecImpl<u32> for Fx<u32, F> {
    open spec fn obeys_shr_spec() -> bool {
        true
    }

    open spec fn shr_req(self, rhs: u32) -> bool {
        rhs < 32
    }

    open spec fn shr_spec(self, rhs: u32) -> Self {
        Self::spec_from_raw(self@ >> rhs)
    }
}

impl<const F: usize> Mul for Fx<u32, F> {
    type Output = Self;

    /// The raw product, modulo `2^32`, shifted down by `F` bits.
    fn mul(self, rhs: Fx<u32, F>) -> (r: Self::Output)
        ensures
            r@ == (unsigned_product(self@ as int, rhs@ as int) / (pow2(frac_shift(F) as nat) as int)) as u32,
    {
        let p = (self.num as u32).wrapping_mul(rhs.num as u32);
        proof {
            lemma_u32_shr_is_div(p, (F as u8) as u32);
        }
        Fx { num: (p >> F as u8) as u32 }
    }
}

impl<const F: usize> MulSpecImpl for Fx<u32, F> {
    open spec fn obeys_mul_spec() -> bool {
        true
    }

    open spec fn mul_req(self, rhs: Self) -> bool {
        frac_shift(F) < 32
    }

    open spec fn mul_spec(self, rhs: Self) -> Self {
        Self::spec_from_raw((unsigned_product(self@ as int, rhs@ as int) / (pow2(frac_shift(F) as nat) as int)) as u32)
    }
}

impl<const F: usize> Div for Fx<u32, F> {
    type Output = Self;

    /// The raw value scaled up by `2^F` (wrapping in `i32`), divided by the
    /// other raw value rounding toward zero.
    fn div(self, rhs: Fx<u32, F>) -> (r: Self::Output)
        ensures
            r@ == trunc_div(scaled_dividend(self@ as i32, frac_shift(F)) as int, (rhs@ as i32) as int) as u32,
    {
        proof {
            lemma_one_shl_i32(F as u8);
        }
        let mul_output: i32 = (self.num as i32).wrapping_mul(1 << F as u8);
        proof {
            lemma_wrapping_scale(self@ as i32, F as u8);
        }
        let divide_result: i32 = div(mul_output, rhs.num as i32);
        Fx { num: divide_result as u32 }
    }
}

impl<const F: usize> DivSpecImpl for Fx<u32, F> {
    open spec fn obeys_div_spec() -> bool {
        true
    }

    open spec fn div_req(self, rhs: Self) -> bool {
        &&& frac_shift(F) < 32
        &&& (rhs@ as i32) != 0
        &&& !(scaled_dividend(self@ as i32, frac_shift(F)) == i32::MIN && (rhs@ as i32) == -1)
    }

    open spec fn div_spec(self, rhs: Self) -> Self {
        Self::spec_from_raw(trunc_div(scaled_dividend(self@ as i32, frac_shift(F)) as int, (rhs@ as i32) as int) as u32)
    }
}

impl<const F: usize> Fx<u32, F> {
    /// Gives the smallest positive non-zero value.
    pub fn precision() -> (r: Self)
        ensures
            r@ == 1,
    {
        Fx { num: 1 }
    }

    /// Makes a value with the integer part shifted into place.
    pub fn from_int_part(i: u32) -> (r: Self)
        requires
            frac_shift(F) < 32,
        ensures
            r@ == i << frac_shift(F),
    {
        Fx { num: i << F as u8 }
    }

    /// Changes the fractional bit quantity, keeping the base type the same.
    ///
    /// The raw value moves left by `Y - F` bits when that is positive, and
    /// right by `F - Y` bits otherwise.
    pub fn adjust_fractional_bits<const Y: usize>(self) -> (r: Fx<u32, Y>)
        requires
            i32::MIN <= (Y as i32) - (F as i32) <= i32::MAX,
            -32 < (Y as i32) - (F as i32) < 32,
        ensures
            r@ == if (Y as i32) - (F as i32) > 0 {
                self@ << ((Y as i32) - (F as i32)) as u32
            } else {
                self@ >> (-((Y as i32) - (F as i32))) as u32
            },
    {
        let leftward_movement: i32 = Y as i32 - F as i32;
        Fx {
            num: if leftward_movement > 0 {
                self.num << leftward_movement
            } else {
                self.num >> (-leftward_movement)
            },
        }
    }
}

/// The raw value of `from_int_part(i)` for `u16`: `i` shifted up by `f`,
/// which is `i * 2^f` when that fits.
proof fn lemma_u16_int_part(i: u16, f: u8)
    requires
        f < 16,
        i * pow2(f as nat) <= u16::MAX,
    ensures
        (i << f) as int == i * pow2(f as nat),
{
    assert((i << f) == (i << (f as u16))) by (bit_vector);
    vstd::bits::lemma_u16_shl_is_mul(i, f as u16);
}

/// Adding the integer parts `a` and `b` is the integer part `a + b`, as long
/// as that fits.
pub proof fn lemma_int_part_add_u16(a: u16, b: u16, f: u8)
    requires
        f < 16,
        (a + b) * pow2(f as nat) <= u16::MAX,
    ensures
        (a << f) + (b << f) == ((a + b) as u16) << f,
{
    lemma_pow2_pos(f as nat);
    assert(a * pow2(f as nat) <= (a + b) * pow2(f as nat)) by (nonlinear_arith)
        requires
            pow2(f as nat) > 0,
    ;
    assert(b * pow2(f as nat) <= (a + b) * pow2(f as nat)) by (nonlinear_arith)
        requires
            pow2(f as nat) > 0,
    ;
    assert(a + b <= (a + b) * pow2(f as nat)) by (nonlinear_arith)
        requires
            pow2(f as nat) > 0,
            a + b >= 0,
    ;
    lemma_u16_int_part(a, f);
    lemma_u16_int_part(b, f);
    lemma_u16_int_part((a + b) as u16, f);
    assert((a + b) * pow2(f as nat) == a * pow2(f as nat) + b * pow2(f as nat)) by (nonlinear_arith);
}

/// Multiplying the integer parts `a` and `b` is the integer part `a * b`, as
/// long as that fits.
pub proof fn lemma_int_part_mul_u16(a: u16, b: u16, f: u8)
    requires
        f < 16,
        (a * b) * pow2(f as nat) <= u16::MAX,
        a * pow2(f as nat) <= u16::MAX,
        b * pow2(f as nat) <= u16::MAX,
    ensures
        unsigned_product((a << f) as int, (b << f) as int) / (pow2(f as nat) as int) == (((a * b) as u16) << f) as int,
{
    let p = pow2(f as nat) as int;
    lemma_pow2_pos(f as nat);
    assert(a * b <= (a * b) * p) by (nonlinear_arith)
        requires
            p > 0,
            a * b >= 0,
    ;
    lemma_u16_int_part(a, f);
    lemma_u16_int_part(b, f);
    lemma_u16_int_part((a * b) as u16, f);
    assert((a * p) * (b * p) == (a * b * p) * p) by (nonlinear_arith);
    assert((a * p) * (b * p) < 0x1_0000_0000) by (nonlinear_arith)
        requires
            a * p <= 0xffff,
            b * p <= 0xffff,
            a * p >= 0,
            b * p >= 0,
    ;
    assert(((a * p) * (b * p)) % 0x1_0000_0000 == (a * p) * (b * p)) by {
        vstd::arithmetic::div_mod::lemma_small_mod(((a * p) * (b * p)) as nat, 0x1_0000_0000);
    }
    assert(((a * b * p) * p) / p == a * b * p) by {
        vstd::arithmetic::div_mod::lemma_div_by_multiple(a * b * p, p);
    }
}

/// Dividing the integer part `a * b` by the integer part `b` gives the
/// integer part `a`, as long as the scaled dividend fits in an `i32`.
pub proof fn lemma_int_part_div_u16(a: u16, b: u16, f: u8)
    requires
        f < 16,
        b > 0,
        b * pow2(f as nat) <= u16::MAX,
        (a * b) * pow2(f as nat) <= u16::MAX,
        (a * b) * pow2(f as nat) * pow2(f as nat) <= i32::MAX,
    ensures
        trunc_div(
            scaled_dividend(((((a * b) as u16) << f) as i32), f) as int,
            ((b << f) as i32) as int,
        ) == (a << f) as int,
{
    let p = pow2(f as nat) as int;
    lemma_pow2_pos(f as nat);
    assert(a * p <= (a * b) * p) by (nonlinear_arith)
        requires
            p > 0,
            b > 0,
    ;
    assert(a * b <= (a * b) * p) by (nonlinear_arith)
        requires
            p > 0,
            a * b >= 0,
    ;
    lemma_u16_int_part(a, f);
    lemma_u16_int_part(b, f);
    lemma_u16_int_part((a * b) as u16, f);
    let m = (a * b) * p * p;
    let x = ((((a * b) as u16) << f) as i32) as int;
    assert(x == (a * b) * p);
    assert(x * p == m);
    assert(m >= 0 && m == (a * p) * (b * p)) by (nonlinear_arith)
        requires
            m == (a * b) * p * p,
            p > 0,
            a >= 0,
            b >= 0,
    ;
    vstd::arithmetic::div_mod::lemma_small_mod(m as nat, 0x1_0000_0000);
    assert(signed_crop(m) == m);
    assert(b * p > 0) by (nonlinear_arith)
        requires
            b > 0,
            p > 0,
    ;
    vstd::arithmetic::div_mod::lemma_div_by_multiple(a * p, b * p);
}

/// Negating a value twice gives it back.
pub proof fn lemma_neg_neg_i16<const F: usize>(x: Fx<i16, F>)
    requires
        x@ != i16::MIN,
    ensures
        NegSpec::neg_req(NegSpec::neg_spec(x)),
        NegSpec::neg_spec(NegSpec::neg_spec(x)) == x,
{
    let n = NegSpec::neg_spec(x);
    assert(n@ == -x@);
    let nn = NegSpec::neg_spec(n);
    assert(nn@ == x@);
    assert(nn == x);
}

/// The integer part `-a` is the negation of the integer part `a` (both
/// wrap the same way).
pub proof fn lemma_int_part_neg_i16(a: i16, f: u8)
    requires
        a != i16::MIN,
        f < 16,
    ensures
        ((-a) as i16) << f == (-(a << f)) as i16,
{
    assert(((-a) as i16) << f == (-(a << f)) as i16) by (bit_vector)
        requires
            a != i16::MIN,
            f < 16,
    ;
}

/// Multiplying by `1 << f` with wrapping in `i32` is multiplying by `2^f`
/// with wrapping.
proof fn lemma_wrapping_scale(a: i32, f: u8)
    requires
        f < 32,
    ensures
        signed_crop(a * (1i32 << f)) == signed_crop(a * pow2(f as nat)),
{
    lemma_one_shl_i32(f);
    lemma_pow2_pos(f as nat);
    if f < 31 {
        vstd::bits::lemma_u32_pow2_no_overflow(f as nat);
        assert(pow2(f as nat) < 0x8000_0000) by {
            vstd::arithmetic::power2::lemma_pow2_strictly_increases(f as nat, 31);
            lemma2_to64();
        }
        assert(pow2(f as nat) % 0x1_0000_0000 == pow2(f as nat));
    } else {
        lemma2_to64();
        assert(a * pow2(f as nat) == a * (1i32 << f) + a * 0x1_0000_0000) by (nonlinear_arith)
            requires
                pow2(f as nat) == 0x8000_0000,
                (1i32 << f) == -0x8000_0000,
        ;
        vstd::arithmetic::div_mod::lemma_mod_multiples_vanish(a as int, a * (1i32 << f), 0x1_0000_0000);
        assert((a * 0x1_0000_0000 + a * (1i32 << f)) % 0x1_0000_0000 == (a * (1i32 << f)) % 0x1_0000_0000);
    }
}

} // verus!
