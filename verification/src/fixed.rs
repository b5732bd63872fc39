//! A fixed-point number type generic over its base integer and its count of
//! fractional bits.
#![allow(non_camel_case_types)]
use vstd::prelude::*;
use core::ops::{Add, BitAnd, BitOr, BitXor, Div, Mul, Neg, Not, Rem, Shl, Shr, Sub};
use core::ops::{BitAndAssign, BitOrAssign, BitXorAssign};
use vstd::std_specs::ops::{
    AddSpecImpl, BitAndSpecImpl, BitOrSpecImpl, BitXorSpecImpl, DivSpecImpl, MulSpecImpl,
    NegSpecImpl, NotSpecImpl, RemSpecImpl, ShlSpecImpl, ShrSpecImpl, SubSpecImpl,
};
use vstd::std_specs::ops::{AddSpec, NegSpec, SubSpec};
use crate::fixed_point::trunc_div;

verus! {

/// `i16` with 8 bits of fixed-point fraction.
///
/// This is used by the affine matrix entries.
pub type i16fx8 = Fixed<i16, 8>;

/// `i16` with 14 bits of fixed-point fraction.
///
/// This is used by the `ArcTan` and `ArcTan2` BIOS functions.
pub type i16fx14 = Fixed<i16, 14>;

/// `i32` with 8 bits of fixed-point fraction.
///
/// This is used by the background reference point entries.
pub type i32fx8 = Fixed<i32, 8>;

/// A fixed-point number. This wraps an integer with a const generic for how
/// many bits are fractional.
///
/// * The `I` type is meant to be a signed or unsigned integer of a fixed bit
///   size: `i8`, `i16`, `i32`, `u8`, `u16`, or `u32`.
/// * The `B` value is the number of bits that form the fractional part. It
///   should be less than the number of bits in the integer's type. Multiply
///   and divide shift the value by `B`, and need `B` below the integer's
///   size.
#[derive(Default, Clone, Copy, PartialEq, Eq, PartialOrd, Ord, Hash)]
pub struct Fixed<I, const B: u32>(I);

impl<I, const B: u32> View for Fixed<I, B> {
    type V = I;

    /// The raw integer inside, which stands for `raw / 2^B`.
    closed spec fn view(&self) -> I {
        self.0
    }
}

impl<I, const B: u32> Fixed<I, B> {
    /// The value holding the raw integer `i`.
    pub closed spec fn spec_from_bits(i: I) -> Self {
        Fixed(i)
    }
}

/// The raw value of a spec-built value is the integer it was built from.
pub broadcast proof fn lemma_view_spec_from_bits<I, const B: u32>(i: I)
    ensures
        #[trigger] Fixed::<I, B>::spec_from_bits(i)@ == i,
{
}

/// The magnitude of an integer.
pub open spec fn magnitude(x: int) -> int {
    if x < 0 {
        -x
    } else {
        x
    }
}

/// Euclidean division by a negative divisor is the negated division by its
/// magnitude, and leaves the same remainder.
proof fn lemma_div_by_negative(x: int, b: int)
    requires
        b < 0,
    ensures
        x / b == -(x / (-b)),
        x % b == x % (-b),
{
    let q = x / (-b);
    let r = x % (-b);
    vstd::arithmetic::div_mod::lemma_fundamental_div_mod(x, -b);
    vstd::arithmetic::div_mod::lemma_mod_bound(x, -b);
    assert(x / b == -q && x % b == r) by (nonlinear_arith)
        requires
            b < 0,
            x == (-b) * q + r,
            0 <= r < -b,
    ;
}

/// A quotient rounding toward zero of an `i32` by a non-zero `i32` fits in
/// an `i32`, unless it is `i32::MIN / -1`.
proof fn lemma_trunc_div_fits_i32(a: i32, b: i32)
    requires
        b != 0,
        !(a == i32::MIN && b == -1),
    ensures
        i32::MIN <= trunc_div(a as int, b as int) <= i32::MAX,
{
    let ma = magnitude(a as int);
    let mb = magnitude(b as int);
    vstd::arithmetic::div_mod::lemma_div_basics_4(ma, mb);
    vstd::arithmetic::div_mod::lemma_div_basics_5(ma, mb);
    if a == i32::MIN && b < 0 {
        vstd::arithmetic::div_mod::lemma_div_is_ordered_by_denominator(ma, 2, mb);
    }
}

/// The remainder of a division that rounds toward zero: it has the
/// dividend's sign and the magnitude of `|a| mod |b|`.
pub open spec fn trunc_rem(a: int, b: int) -> int {
    if a >= 0 {
        a % magnitude(b)
    } else {
        -((-a) % magnitude(b))
    }
}

impl<const B: u32> Fixed<i8, B> {
    /// Shifts the value left by `B`, wrapping it into the range of this type.
    pub fn wrapping_from(i: i8) -> (r: Self)
        requires
            B < 8,
        ensures
            r@ == i << B,
    {
        Fixed(i << B)
    }

    /// Makes a value directly from a raw inner value (no shift).
    pub fn from_bits(i: i8) -> (r: Self)
        ensures
            r@ == i,
    {
        Fixed(i)
    }

    /// Unwraps the inner value directly into the base type (no shift).
    pub fn to_bits(self) -> (r: i8)
        ensures
            r == self@,
    {
        self.0
    }

    /// Bitwise Not.
    pub fn not(self) -> (r: Self)
        ensures
            r@ == !self@,
    {
        Fixed(!self.0)
    }

    /// Addition.
    pub fn add(self, rhs: Self) -> (r: Self)
        requires
            i8::MIN <= self@ + rhs@ <= i8::MAX,
        ensures
            r@ == self@ + rhs@,
    {
        Fixed(self.0 + rhs.0)
    }

    /// Subtraction.
    pub fn sub(self, rhs: Self) -> (r: Self)
        requires
            i8::MIN <= self@ - rhs@ <= i8::MAX,
        ensures
            r@ == self@ - rhs@,
    {
        Fixed(self.0 - rhs.0)
    }

    /// Remainder, with the sign of `self`.
    pub fn rem(self, rhs: Self) -> (r: Self)
        requires
            rhs@ != 0,
            !(self@ == i8::MIN && rhs@ == -1),
        ensures
            r@ == trunc_rem(self@ as int, rhs@ as int),
    {
        proof {
            if rhs@ < 0 {
                lemma_div_by_negative(self@ as int, rhs@ as int);
                lemma_div_by_negative(-(self@ as int), rhs@ as int);
            }
        }
        Fixed(self.0 % rhs.0)
    }

    /// Bitwise AND.
    pub fn bitand(self, rhs: Self) -> (r: Self)
        ensures
            r@ == self@ & rhs@,
    {
        Fixed(self.0 & rhs.0)
    }

    /// Bitwise OR.
    pub fn bitor(self, rhs: Self) -> (r: Self)
        ensures
            r@ == self@ | rhs@,
    {
        Fixed(self.0 | rhs.0)
    }

    /// Bitwise XOR.
    pub fn bitxor(self, rhs: Self) -> (r: Self)
        ensures
            r@ == self@ ^ rhs@,
    {
        Fixed(self.0 ^ rhs.0)
    }

    /// Bit-shift Left.
    pub fn shl(self, rhs: u32) -> (r: Self)
        requires
            rhs < 8,
        ensures
            r@ == self@ << rhs,
    {
        Fixed(self.0 << rhs)
    }

    /// Bit-shift Right.
    pub fn shr(self, rhs: u32) -> (r: Self)
        requires
            rhs < 8,
        ensures
            r@ == self@ >> rhs,
    {
        Fixed(self.0 >> rhs)
    }

    /// Negate.
    pub fn neg(self) -> (r: Self)
        requires
            self@ != i8::MIN,
        ensures
            r@ == -self@,
    {
        Fixed(-self.0)
    }

    /// If the number is negative or not.
    pub fn is_negative(self) -> (r: bool)
        ensures
            r == (self@ < 0),
    {
        self.0 < 0
    }

    /// Multiply: the raw product, computed in `i32`, shifted right by `B`
    /// (rounding toward negative infinity) and cut to the base type.
    pub fn mul(self, rhs: Self) -> (r: Self)
        requires
            B < 8,
        ensures
            r@ == ((((self@ as int) * (rhs@ as int)) as i32) >> B) as i8,
    {
        proof {
            assert(-0x4000_0000 <= (self@ as int) * (rhs@ as int) <= 0x4000_0000) by (nonlinear_arith)
                requires
                    i8::MIN <= self@ <= i8::MAX,
                    i8::MIN <= rhs@ <= i8::MAX,
            ;
        }
        let raw: i32 = (self.0 as i32) * (rhs.0 as i32);
        Fixed((raw >> B) as i8)
    }

    /// Divide: the raw value, computed in `i32` and scaled up by `1 << B`,
    /// divided by the other raw value (rounding toward zero) and cut to the
    /// base type.
    pub fn div(self, rhs: Self) -> (r: Self)
        requires
            B < 8,
            i32::MIN <= (self@ as int) * ((1i32 << B) as int) <= i32::MAX,
            rhs@ != 0,
            !((self@ as int) * ((1i32 << B) as int) == i32::MIN && rhs@ == -1),
        ensures
            r@ == trunc_div((self@ as int) * ((1i32 << B) as int), rhs@ as int) as i8,
    {
        let m: i32 = (self.0 as i32) * (1i32 << B);
        let r32: i32 = rhs.0 as i32;
        proof {
            if r32 < 0 {
                lemma_div_by_negative(m as int, r32 as int);
                lemma_div_by_negative(-(m as int), r32 as int);
            }
            lemma_trunc_div_fits_i32(m, r32);
        }
        let d: i32 = m / r32;
        Fixed(d as i8)
    }

    /// Fractional part of the value: the low `B` bits of the magnitude.
    pub fn fract(self) -> (r: Self)
        requires
            0 < B <= 8,
        ensures
            r@ == ((magnitude(self@ as int) as u8) & (u8::MAX >> ((8 - B) as u32))) as i8,
    {
        let frac_mask: u8 = u8::MAX >> (8 - B);
        Fixed((unsigned_abs_i8(self.0) & frac_mask) as i8)
    }

    /// Whole part of the value: the magnitude with its low `B` bits cleared.
    pub fn trunc(self) -> (r: Self)
        requires
            B < 8,
        ensures
            r@ == (((magnitude(self@ as int) as u8) >> B) << B) as i8,
    {
        Fixed(((unsigned_abs_i8(self.0) >> B) << B) as i8)
    }
}

/// The magnitude of `x` as the unsigned type of its width.
fn unsigned_abs_i8(x: i8) -> (r: u8)
    ensures
        r == magnitude(x as int),
{
    if x < 0 {
        (0i32 - (x as i32)) as u8
    } else {
        x as u8
    }
}

impl<const B: u32> Not for Fixed<i8, B> {
    type Output = Self;

    fn not(self) -> (r: Self) {
        Fixed(!self.0)
    }
}

impl<const B: u32> NotSpecImpl for Fixed<i8, B> {
    open spec fn obeys_not_spec() -> bool {
        true
    }

    open spec fn not_req(self) -> bool {
        true
    }

    open spec fn not_spec(self) -> Self {
        Self::spec_from_bits(!self@)
    }
}

impl<const B: u32> Add for Fixed<i8, B> {
    type Output = Self;

    fn add(self, rhs: Self) -> (r: Self) {
        Fixed(self.0 + rhs.0)
    }
}

impl<const B: u32> AddSpecImpl for Fixed<i8, B> {
    open spec fn obeys_add_spec() -> bool {
        true
    }

    open spec fn add_req(self, rhs: Self) -> bool {
        i8::MIN <= self@ + rhs@ <= i8::MAX
    }

    open spec fn add_spec(self, rhs: Self) -> Self {
        Self::spec_from_bits((self@ + rhs@) as i8)
    }
}

impl<const B: u32> Sub for Fixed<i8, B> {
    type Output = Self;

    fn sub(self, rhs: Self) -> (r: Self) {
        Fixed(self.0 - rhs.0)
    }
}

impl<const B: u32> SubSpecImpl for Fixed<i8, B> {
    open spec fn obeys_sub_spec() -> bool {
        true
    }

    open spec fn sub_req(self, rhs: Self) -> bool {
        i8::MIN <= self@ - rhs@ <= i8::MAX
    }

    open spec fn sub_spec(self, rhs: Self) -> Self {
        Self::spec_from_bits((self@ - rhs@) as i8)
    }
}

impl<const B: u32> Mul for Fixed<i8, B> {
    type Output = Self;

    fn mul(self, rhs: Self) -> (r: Self) {
        self.mul(rhs)
    }
}

impl<const B: u32> MulSpecImpl for Fixed<i8, B> {
    open spec fn obeys_mul_spec() -> bool {
        true
    }

    open spec fn mul_req(self, rhs: Self) -> bool {
        B < 8
    }

    open spec fn mul_spec(self, rhs: Self) -> Self {
        Self::spec_from_bits(((((self@ as int) * (rhs@ as int)) as i32) >> B) as i8)
    }
}

impl<const B: u32> Div for Fixed<i8, B> {
    type Output = Self;

    fn div(self, rhs: Self) -> (r: Self) {
        self.div(rhs)
    }
}

impl<const B: u32> DivSpecImpl for Fixed<i8, B> {
    open spec fn obeys_div_spec() -> bool {
        true
    }

    open spec fn div_req(self, rhs: Self) -> bool {
        B < 8 && i32::MIN <= (self@ as int) * ((1i32 << B) as int) <= i32::MAX && rhs@ != 0 && !((self@ as int) * ((1i32 << B) as int) == i32::MIN && rhs@ == -1)
    }

    open spec fn div_spec(self, rhs: Self) -> Self {
        Self::spec_from_bits(trunc_div((self@ as int) * ((1i32 << B) as int), rhs@ as int) as i8)
    }
}

impl<const B: u32> Rem for Fixed<i8, B> {
    type Output = Self;

    fn rem(self, rhs: Self) -> (r: Self) {
        self.rem(rhs)
    }
}

impl<const B: u32> RemSpecImpl for Fixed<i8, B> {
    open spec fn obeys_rem_spec() -> bool {
        true
    }

    open spec fn rem_req(self, rhs: Self) -> bool {
        rhs@ != 0 && !(self@ == i8::MIN && rhs@ == -1)
    }

    open spec fn rem_spec(self, rhs: Self) -> Self {
        Self::spec_from_bits(trunc_rem(self@ as int, rhs@ as int) as i8)
    }
}

impl<const B: u32> Neg for Fixed<i8, B> {
    type Output = Self;

    fn neg(self) -> (r: Self) {
        Fixed(-self.0)
    }
}

impl<const B: u32> NegSpecImpl for Fixed<i8, B> {
    open spec fn obeys_neg_spec() -> bool {
        true
    }

    open spec fn neg_req(self) -> bool {
        self@ != i8::MIN
    }

    open spec fn neg_spec(self) -> Self {
        Self::spec_from_bits((-self@) as i8)
    }
}

impl<const B: u32> BitAnd for Fixed<i8, B> {
    type Output = Self;

    fn bitand(self, rhs: Self) -> (r: Self) {
        Fixed(self.0 & rhs.0)
    }
}

impl<const B: u32> BitAndSpecImpl for Fixed<i8, B> {
    open spec fn obeys_bitand_spec() -> bool {
        true
    }

    open spec fn bitand_req(self, rhs: Self) -> bool {
        true
    }

    open spec fn bitand_spec(self, rhs: Self) -> Self {
        Self::spec_from_bits(self@ & rhs@)
    }
}

impl<const B: u32> BitOr for Fixed<i8, B> {
    type Output = Self;

    fn bitor(self, rhs: Self) -> (r: Self) {
        Fixed(self.0 | rhs.0)
    }
}

impl<const B: u32> BitOrSpecImpl for Fixed<i8, B> {
    open spec fn obeys_bitor_spec() -> bool {
        true
    }

    open spec fn bitor_req(self, rhs: Self) -> bool {
        true
    }

    open spec fn bitor_spec(self, rhs: Self) -> Self {
        Self::spec_from_bits(self@ | rhs@)
    }
}

impl<const B: u32> BitXor for Fixed<i8, B> {
    type Output = Self;

    fn bitxor(self, rhs: Self) -> (r: Self) {
        Fixed(self.0 ^ rhs.0)
    }
}

impl<const B: u32> BitXorSpecImpl for Fixed<i8, B> {
    open spec fn obeys_bitxor_spec() -> bool {
        true
    }

    open spec fn bitxor_req(self, rhs: Self) -> bool {
        true
    }

    open spec fn bitxor_spec(self, rhs: Self) -> Self {
        Self::spec_from_bits(self@ ^ rhs@)
    }
}

impl<const B: u32> Shl<u32> for Fixed<i8, B> {
    type Output = Self;

    fn shl(self, rhs: u32) -> (r: Self) {
        Fixed(self.0 << rhs)
    }
}

impl<const B: u32> ShlSpecImpl<u32> for Fixed<i8, B> {
    open spec fn obeys_shl_spec() -> bool {
        true
    }

    open spec fn shl_req(self, rhs: u32) -> bool {
        rhs < 8
    }

    open spec fn shl_spec(self, rhs: u32) -> Self {
        Self::spec_from_bits(self@ << rhs)
    }
}

impl<const B: u32> Shr<u32> for Fixed<i8, B> {
    type Output = Self;

    fn shr(self, rhs: u32) -> (r: Self) {
        Fixed(self.0 >> rhs)
    }
}

impl<const B: u32> ShrSpecImpl<u32> for Fixed<i8, B> {
    open spec fn obeys_shr_spec() -> bool {
        true
    }

    open spec fn shr_req(self, rhs: u32) -> bool {
        rhs < 8
    }

    open spec fn shr_spec(self, rhs: u32) -> Self {
        Self::spec_from_bits(self@ >> rhs)
    }
}

impl<const B: u32> BitAndAssign for Fixed<i8, B> {
    fn bitand_assign(&mut self, rhs: Self)
        ensures
            final(self)@ == old(self)@ & rhs@,
            *final(self) == vstd::std_specs::ops::BitAndSpec::bitand_spec(*old(self), rhs),
    {
        self.0 = self.0 & rhs.0;
    }
}

impl<const B: u32> BitOrAssign for Fixed<i8, B> {
    fn bitor_assign(&mut self, rhs: Self)
        ensures
            final(self)@ == old(self)@ | rhs@,
            *final(self) == vstd::std_specs::ops::BitOrSpec::bitor_spec(*old(self), rhs),
    {
        self.0 = self.0 | rhs.0;
    }
}

impl<const B: u32> BitXorAssign for Fixed<i8, B> {
    fn bitxor_assign(&mut self, rhs: Self)
        ensures
            final(self)@ == old(self)@ ^ rhs@,
            *final(self) == vstd::std_specs::ops::BitXorSpec::bitxor_spec(*old(self), rhs),
    {
        self.0 = self.0 ^ rhs.0;
    }
}

impl<const B: u32> Fixed<i16, B> {
    /// Shifts the value left by `B`, wrapping it into the range of this type.
    pub fn wrapping_from(i: i16) -> (r: Self)
        requires
            B < 16,
        ensures
            r@ == i << B,
    {
        Fixed(i << B)
    }

    /// Makes a value directly from a raw inner value (no shift).
    pub fn from_bits(i: i16) -> (r: Self)
        ensures
            r@ == i,
    {
        Fixed(i)
    }

    /// Unwraps the inner value directly into the base type (no shift).
    pub fn to_bits(self) -> (r: i16)
        ensures
            r == self@,
    {
        self.0
    }

    /// Bitwise Not.
    pub fn not(self) -> (r: Self)
        ensures
            r@ == !self@,
    {
        Fixed(!self.0)
    }

    /// Addition.
    pub fn add(self, rhs: Self) -> (r: Self)
        requires
            i16::MIN <= self@ + rhs@ <= i16::MAX,
        ensures
            r@ == self@ + rhs@,
    {
        Fixed(self.0 + rhs.0)
    }

    /// Subtraction.
    pub fn sub(self, rhs: Self) -> (r: Self)
        requires
            i16::MIN <= self@ - rhs@ <= i16::MAX,
        ensures
            r@ == self@ - rhs@,
    {
        Fixed(self.0 - rhs.0)
    }

    /// Remainder, with the sign of `self`.
    pub fn rem(self, rhs: Self) -> (r: Self)
        requires
            rhs@ != 0,
            !(self@ == i16::MIN && rhs@ == -1),
        ensures
            r@ == trunc_rem(self@ as int, rhs@ as int),
    {
        proof {
            if rhs@ < 0 {
                lemma_div_by_negative(self@ as int, rhs@ as int);
                lemma_div_by_negative(-(self@ as int), rhs@ as int);
            }
        }
        Fixed(self.0 % rhs.0)
    }

    /// Bitwise AND.
    pub fn bitand(self, rhs: Self) -> (r: Self)
        ensures
            r@ == self@ & rhs@,
    {
        Fixed(self.0 & rhs.0)
    }

    /// Bitwise OR.
    pub fn bitor(self, rhs: Self) -> (r: Self)
        ensures
            r@ == self@ | rhs@,
    {
        Fixed(self.0 | rhs.0)
    }

    /// Bitwise XOR.
    pub fn bitxor(self, rhs: Self) -> (r: Self)
        ensures
            r@ == self@ ^ rhs@,
    {
        Fixed(self.0 ^ rhs.0)
    }

    /// Bit-shift Left.
    pub fn shl(self, rhs: u32) -> (r: Self)
        requires
            rhs < 16,
        ensures
            r@ == self@ << rhs,
    {
        Fixed(self.0 << rhs)
    }

    /// Bit-shift Right.
    pub fn shr(self, rhs: u32) -> (r: Self)
        requires
            rhs < 16,
        ensures
            r@ == self@ >> rhs,
    {
        Fixed(self.0 >> rhs)
    }

    /// Negate.
    pub fn neg(self) -> (r: Self)
        requires
            self@ != i16::MIN,
        ensures
            r@ == -self@,
    {
        Fixed(-self.0)
    }

    /// If the number is negative or not.
    pub fn is_negative(self) -> (r: bool)
        ensures
            r == (self@ < 0),
    {
        self.0 < 0
    }

    /// Multiply: the raw product, computed in `i32`, shifted right by `B`
    /// (rounding toward negative infinity) and cut to the base type.
    pub fn mul(self, rhs: Self) -> (r: Self)
        requires
            B < 16,
        ensures
            r@ == ((((self@ as int) * (rhs@ as int)) as i32) >> B) as i16,
    {
        proof {
            assert(-0x4000_0000 <= (self@ as int) * (rhs@ as int) <= 0x4000_0000) by (nonlinear_arith)
                requires
                    i16::MIN <= self@ <= i16::MAX,
                    i16::MIN <= rhs@ <= i16::MAX,
            ;
        }
        let raw: i32 = (self.0 as i32) * (rhs.0 as i32);
        Fixed((raw >> B) as i16)
    }

    /// Divide: the raw value, computed in `i32` and scaled up by `1 << B`,
    /// divided by the other raw value (rounding toward zero) and cut to the
    /// base type.
    pub fn div(self, rhs: Self) -> (r: Self)
        requires
            B < 16,
            i32::MIN <= (self@ as int) * ((1i32 << B) as int) <= i32::MAX,
            rhs@ != 0,
            !((self@ as int) * ((1i32 << B) as int) == i32::MIN && rhs@ == -1),
        ensures
            r@ == trunc_div((self@ as int) * ((1i32 << B) as int), rhs@ as int) as i16,
    {
        let m: i32 = (self.0 as i32) * (1i32 << B);
        let r32: i32 = rhs.0 as i32;
        proof {
            if r32 < 0 {
                lemma_div_by_negative(m as int, r32 as int);
                lemma_div_by_negative(-(m as int), r32 as int);
            }
            lemma_trunc_div_fits_i32(m, r32);
        }
        let d: i32 = m / r32;
        Fixed(d as i16)
    }

    /// Fractional part of the value: the low `B` bits of the magnitude.
    pub fn fract(self) -> (r: Self)
        requires
            0 < B <= 16,
        ensures
            r@ == ((magnitude(self@ as int) as u16) & (u16::MAX >> ((16 - B) as u32))) as i16,
    {
        let frac_mask: u16 = u16::MAX >> (16 - B);
        Fixed((unsigned_abs_i16(self.0) & frac_mask) as i16)
    }

    /// Whole part of the value: the magnitude with its low `B` bits cleared.
    pub fn trunc(self) -> (r: Self)
        requires
            B < 16,
        ensures
            r@ == (((magnitude(self@ as int) as u16) >> B) << B) as i16,
    {
        Fixed(((unsigned_abs_i16(self.0) >> B) << B) as i16)
    }
}

/// The magnitude of `x` as the unsigned type of its width.
fn unsigned_abs_i16(x: i16) -> (r: u16)
    ensures
        r == magnitude(x as int),
{
    if x < 0 {
        (0i32 - (x as i32)) as u16
    } else {
        x as u16
    }
}

impl<const B: u32> Not for Fixed<i16, B> {
    type Output = Self;

    fn not(self) -> (r: Self) {
        Fixed(!self.0)
    }
}

impl<const B: u32> NotSpecImpl for Fixed<i16, B> {
    open spec fn obeys_not_spec() -> bool {
        true
    }

    open spec fn not_req(self) -> bool {
        true
    }

    open spec fn not_spec(self) -> Self {
        Self::spec_from_bits(!self@)
    }
}

impl<const B: u32> Add for Fixed<i16, B> {
    type Output = Self;

    fn add(self, rhs: Self) -> (r: Self) {
        Fixed(self.0 + rhs.0)
    }
}

impl<const B: u32> AddSpecImpl for Fixed<i16, B> {
    open spec fn obeys_add_spec() -> bool {
        true
    }

    open spec fn add_req(self, rhs: Self) -> bool {
        i16::MIN <= self@ + rhs@ <= i16::MAX
    }

    open spec fn add_spec(self, rhs: Self) -> Self {
        Self::spec_from_bits((self@ + rhs@) as i16)
    }
}

impl<const B: u32> Sub for Fixed<i16, B> {
    type Output = Self;

    fn sub(self, rhs: Self) -> (r: Self) {
        Fixed(self.0 - rhs.0)
    }
}

impl<const B: u32> SubSpecImpl for Fixed<i16, B> {
    open spec fn obeys_sub_spec() -> bool {
        true
    }

    open spec fn sub_req(self, rhs: Self) -> bool {
        i16::MIN <= self@ - rhs@ <= i16::MAX
    }

    open spec fn sub_spec(self, rhs: Self) -> Self {
        Self::spec_from_bits((self@ - rhs@) as i16)
    }
}

impl<const B: u32> Mul for Fixed<i16, B> {
    type Output = Self;

    fn mul(self, rhs: Self) -> (r: Self) {
        self.mul(rhs)
    }
}

impl<const B: u32> MulSpecImpl for Fixed<i16, B> {
    open spec fn obeys_mul_spec() -> bool {
        true
    }

    open spec fn mul_req(self, rhs: Self) -> bool {
        B < 16
    }

    open spec fn mul_spec(self, rhs: Self) -> Self {
        Self::spec_from_bits(((((self@ as int) * (rhs@ as int)) as i32) >> B) as i16)
    }
}

impl<const B: u32> Div for Fixed<i16, B> {
    type Output = Self;

    fn div(self, rhs: Self) -> (r: Self) {
        self.div(rhs)
    }
}

impl<const B: u32> DivSpecImpl for Fixed<i16, B> {
    open spec fn obeys_div_spec() -> bool {
        true
    }

    open spec fn div_req(self, rhs: Self) -> bool {
        B < 16 && i32::MIN <= (self@ as int) * ((1i32 << B) as int) <= i32::MAX && rhs@ != 0 && !((self@ as int) * ((1i32 << B) as int) == i32::MIN && rhs@ == -1)
    }

    open spec fn div_spec(self, rhs: Self) -> Self {
        Self::spec_from_bits(trunc_div((self@ as int) * ((1i32 << B) as int), rhs@ as int) as i16)
    }
}

impl<const B: u32> Rem for Fixed<i16, B> {
    type Output = Self;

    fn rem(self, rhs: Self) -> (r: Self) {
        self.rem(rhs)
    }
}

impl<const B: u32> RemSpecImpl for Fixed<i16, B> {
    open spec fn obeys_rem_spec() -> bool {
        true
    }

    open spec fn rem_req(self, rhs: Self) -> bool {
        rhs@ != 0 && !(self@ == i16::MIN && rhs@ == -1)
    }

    open spec fn rem_spec(self, rhs: Self) -> Self {
        Self::spec_from_bits(trunc_rem(self@ as int, rhs@ as int) as i16)
    }
}

impl<const B: u32> Neg for Fixed<i16, B> {
    type Output = Self;

    fn neg(self) -> (r: Self) {
        Fixed(-self.0)
    }
}

impl<const B: u32> NegSpecImpl for Fixed<i16, B> {
    open spec fn obeys_neg_spec() -> bool {
        true
    }

    open spec fn neg_req(self) -> bool {
        self@ != i16::MIN
    }

    open spec fn neg_spec(self) -> Self {
        Self::spec_from_bits((-self@) as i16)
    }
}

impl<const B: u32> BitAnd for Fixed<i16, B> {
    type Output = Self;

    fn bitand(self, rhs: Self) -> (r: Self) {
        Fixed(self.0 & rhs.0)
    }
}

impl<const B: u32> BitAndSpecImpl for Fixed<i16, B> {
    open spec fn obeys_bitand_spec() -> bool {
        true
    }

    open spec fn bitand_req(self, rhs: Self) -> bool {
        true
    }

    open spec fn bitand_spec(self, rhs: Self) -> Self {
        Self::spec_from_bits(self@ & rhs@)
    }
}

impl<const B: u32> BitOr for Fixed<i16, B> {
    type Output = Self;

    fn bitor(self, rhs: Self) -> (r: Self) {
        Fixed(self.0 | rhs.0)
    }
}

impl<const B: u32> BitOrSpecImpl for Fixed<i16, B> {
    open spec fn obeys_bitor_spec() -> bool {
        true
    }

    open spec fn bitor_req(self, rhs: Self) -> bool {
        true
    }

    open spec fn bitor_spec(self, rhs: Self) -> Self {
        Self::spec_from_bits(self@ | rhs@)
    }
}

impl<const B: u32> BitXor for Fixed<i16, B> {
    type Output = Self;

    fn bitxor(self, rhs: Self) -> (r: Self) {
        Fixed(self.0 ^ rhs.0)
    }
}

impl<const B: u32> BitXorSpecImpl for Fixed<i16, B> {
    open spec fn obeys_bitxor_spec() -> bool {
        true
    }

    open spec fn bitxor_req(self, rhs: Self) -> bool {
        true
    }

    open spec fn bitxor_spec(self, rhs: Self) -> Self {
        Self::spec_from_bits(self@ ^ rhs@)
    }
}

impl<const B: u32> Shl<u32> for Fixed<i16, B> {
    type Output = Self;

    fn shl(self, rhs: u32) -> (r: Self) {
        Fixed(self.0 << rhs)
    }
}

impl<const B: u32> ShlSpecImpl<u32> for Fixed<i16, B> {
    open spec fn obeys_shl_spec() -> bool {
        true
    }

    open spec fn shl_req(self, rhs: u32) -> bool {
        rhs < 16
    }

    open spec fn shl_spec(self, rhs: u32) -> Self {
        Self::spec_from_bits(self@ << rhs)
    }
}

impl<const B: u32> Shr<u32> for Fixed<i16, B> {
    type Output = Self;

    fn shr(self, rhs: u32) -> (r: Self) {
        Fixed(self.0 >> rhs)
    }
}

impl<const B: u32> ShrSpecImpl<u32> for Fixed<i16, B> {
    open spec fn obeys_shr_spec() -> bool {
        true
    }

    open spec fn shr_req(self, rhs: u32) -> bool {
        rhs < 16
    }

    open spec fn shr_spec(self, rhs: u32) -> Self {
        Self::spec_from_bits(self@ >> rhs)
    }
}

impl<const B: u32> BitAndAssign for Fixed<i16, B> {
    fn bitand_assign(&mut self, rhs: Self)
        ensures
            final(self)@ == old(self)@ & rhs@,
            *final(self) == vstd::std_specs::ops::BitAndSpec::bitand_spec(*old(self), rhs),
    {
        self.0 = self.0 & rhs.0;
    }
}

impl<const B: u32> BitOrAssign for Fixed<i16, B> {
    fn bitor_assign(&mut self, rhs: Self)
        ensures
            final(self)@ == old(self)@ | rhs@,
            *final(self) == vstd::std_specs::ops::BitOrSpec::bitor_spec(*old(self), rhs),
    {
        self.0 = self.0 | rhs.0;
    }
}

impl<const B: u32> BitXorAssign for Fixed<i16, B> {
    fn bitxor_assign(&mut self, rhs: Self)
        ensures
            final(self)@ == old(self)@ ^ rhs@,
            *final(self) == vstd::std_specs::ops::BitXorSpec::bitxor_spec(*old(self), rhs),
    {
        self.0 = self.0 ^ rhs.0;
    }
}

impl<const B: u32> Fixed<i32, B> {
    /// Shifts the value left by `B`, wrapping it into the range of this type.
    pub fn wrapping_from(i: i32) -> (r: Self)
        requires
            B < 32,
        ensures
            r@ == i << B,
    {
        Fixed(i << B)
    }

    /// Makes a value directly from a raw inner value (no shift).
    pub fn from_bits(i: i32) -> (r: Self)
        ensures
            r@ == i,
    {
        Fixed(i)
    }

    /// Unwraps the inner value directly into the base type (no shift).
    pub fn to_bits(self) -> (r: i32)
        ensures
            r == self@,
    {
        self.0
    }

    /// Bitwise Not.
    pub fn not(self) -> (r: Self)
        ensures
            r@ == !self@,
    {
        Fixed(!self.0)
    }

    /// Addition.
    pub fn add(self, rhs: Self) -> (r: Self)
        requires
            i32::MIN <= self@ + rhs@ <= i32::MAX,
        ensures
            r@ == self@ + rhs@,
    {
        Fixed(self.0 + rhs.0)
    }

    /// Subtraction.
    pub fn sub(self, rhs: Self) -> (r: Self)
        requires
            i32::MIN <= self@ - rhs@ <= i32::MAX,
        ensures
            r@ == self@ - rhs@,
    {
        Fixed(self.0 - rhs.0)
    }

    /// Remainder, with the sign of `self`.
    pub fn rem(self, rhs: Self) -> (r: Self)
        requires
            rhs@ != 0,
            !(self@ == i32::MIN && rhs@ == -1),
        ensures
            r@ == trunc_rem(self@ as int, rhs@ as int),
    {
        proof {
            if rhs@ < 0 {
                lemma_div_by_negative(self@ as int, rhs@ as int);
                lemma_div_by_negative(-(self@ as int), rhs@ as int);
            }
        }
        Fixed(self.0 % rhs.0)
    }

    /// Bitwise AND.
    pub fn bitand(self, rhs: Self) -> (r: Self)
        ensures
            r@ == self@ & rhs@,
    {
        Fixed(self.0 & rhs.0)
    }

    /// Bitwise OR.
    pub fn bitor(self, rhs: Self) -> (r: Self)
        ensures
            r@ == self@ | rhs@,
    {
        Fixed(self.0 | rhs.0)
    }

    /// Bitwise XOR.
    pub fn bitxor(self, rhs: Self) -> (r: Self)
        ensures
            r@ == self@ ^ rhs@,
    {
        Fixed(self.0 ^ rhs.0)
    }

    /// Bit-shift Left.
    pub fn shl(self, rhs: u32) -> (r: Self)
        requires
            rhs < 32,
        ensures
            r@ == self@ << rhs,
    {
        Fixed(self.0 << rhs)
    }

    /// Bit-shift Right.
    pub fn shr(self, rhs: u32) -> (r: Self)
        requires
            rhs < 32,
        ensures
            r@ == self@ >> rhs,
    {
        Fixed(self.0 >> rhs)
    }

    /// Negate.
    pub fn neg(self) -> (r: Self)
        requires
            self@ != i32::MIN,
        ensures
            r@ == -self@,
    {
        Fixed(-self.0)
    }

    /// If the number is negative or not.
    pub fn is_negative(self) -> (r: bool)
        ensures
            r == (self@ < 0),
    {
        self.0 < 0
    }

    /// Multiply: the raw product, computed in `i32`, shifted right by `B`
    /// (rounding toward negative infinity) and cut to the base type.
    pub fn mul(self, rhs: Self) -> (r: Self)
        requires
            B < 32,
            i32::MIN <= (self@ as int) * (rhs@ as int) <= i32::MAX,
        ensures
            r@ == ((((self@ as int) * (rhs@ as int)) as i32) >> B) as i32,
    {
        let raw: i32 = (self.0 as i32) * (rhs.0 as i32);
        Fixed((raw >> B) as i32)
    }

    /// Divide: the raw value, computed in `i32` and scaled up by `1 << B`,
    /// divided by the other raw value (rounding toward zero) and cut to the
    /// base type.
    pub fn div(self, rhs: Self) -> (r: Self)
        requires
            B < 32,
            i32::MIN <= (self@ as int) * ((1i32 << B) as int) <= i32::MAX,
            rhs@ != 0,
            !((self@ as int) * ((1i32 << B) as int) == i32::MIN && rhs@ == -1),
        ensures
            r@ == trunc_div((self@ as int) * ((1i32 << B) as int), rhs@ as int) as i32,
    {
        let m: i32 = (self.0 as i32) * (1i32 << B);
        let r32: i32 = rhs.0 as i32;
        proof {
            if r32 < 0 {
                lemma_div_by_negative(m as int, r32 as int);
                lemma_div_by_negative(-(m as int), r32 as int);
            }
            lemma_trunc_div_fits_i32(m, r32);
        }
        let d: i32 = m / r32;
        Fixed(d as i32)
    }

    /// Fractional part of the value: the low `B` bits of the magnitude.
    pub fn fract(self) -> (r: Self)
        requires
            0 < B <= 32,
        ensures
            r@ == ((magnitude(self@ as int) as u32) & (u32::MAX >> ((32 - B) as u32))) as i32,
    {
        let frac_mask: u32 = u32::MAX >> (32 - B);
        Fixed((unsigned_abs_i32(self.0) & frac_mask) as i32)
    }

    /// Whole part of the value: the magnitude with its low `B` bits cleared.
    pub fn trunc(self) -> (r: Self)
        requires
            B < 32,
        ensures
            r@ == (((magnitude(self@ as int) as u32) >> B) << B) as i32,
    {
        Fixed(((unsigned_abs_i32(self.0) >> B) << B) as i32)
    }
}

/// The magnitude of `x` as the unsigned type of its width.
fn unsigned_abs_i32(x: i32) -> (r: u32)
    ensures
        r == magnitude(x as int),
{
    if x < 0 {
        (0i64 - (x as i64)) as u32
    } else {
        x as u32
    }
}

impl<const B: u32> Not for Fixed<i32, B> {
    type Output = Self;

    fn not(self) -> (r: Self) {
        Fixed(!self.0)
    }
}

impl<const B: u32> NotSpecImpl for Fixed<i32, B> {
    open spec fn obeys_not_spec() -> bool {
        true
    }

    open spec fn not_req(self) -> bool {
        true
    }

    open spec fn not_spec(self) -> Self {
        Self::spec_from_bits(!self@)
    }
}

impl<const B: u32> Add for Fixed<i32, B> {
    type Output = Self;

    fn add(self, rhs: Self) -> (r: Self) {
        Fixed(self.0 + rhs.0)
    }
}

impl<const B: u32> AddSpecImpl for Fixed<i32, B> {
    open spec fn obeys_add_spec() -> bool {
        true
    }

    open spec fn add_req(self, rhs: Self) -> bool {
        i32::MIN <= self@ + rhs@ <= i32::MAX
    }

    open spec fn add_spec(self, rhs: Self) -> Self {
        Self::spec_from_bits((self@ + rhs@) as i32)
    }
}

impl<const B: u32> Sub for Fixed<i32, B> {
    type Output = Self;

    fn sub(self, rhs: Self) -> (r: Self) {
        Fixed(self.0 - rhs.0)
    }
}

impl<const B: u32> SubSpecImpl for Fixed<i32, B> {
    open spec fn obeys_sub_spec() -> bool {
        true
    }

    open spec fn sub_req(self, rhs: Self) -> bool {
        i32::MIN <= self@ - rhs@ <= i32::MAX
    }

    open spec fn sub_spec(self, rhs: Self) -> Self {
        Self::spec_from_bits((self@ - rhs@) as i32)
    }
}

impl<const B: u32> Mul for Fixed<i32, B> {
    type Output = Self;

    fn mul(self, rhs: Self) -> (r: Self) {
        self.mul(rhs)
    }
}

impl<const B: u32> MulSpecImpl for Fixed<i32, B> {
    open spec fn obeys_mul_spec() -> bool {
        true
    }

    open spec fn mul_req(self, rhs: Self) -> bool {
        B < 32 && i32::MIN <= (self@ as int) * (rhs@ as int) <= i32::MAX
    }

    open spec fn mul_spec(self, rhs: Self) -> Self {
        Self::spec_from_bits(((((self@ as int) * (rhs@ as int)) as i32) >> B) as i32)
    }
}

impl<const B: u32> Div for Fixed<i32, B> {
    type Output = Self;

    fn div(self, rhs: Self) -> (r: Self) {
        self.div(rhs)
    }
}

impl<const B: u32> DivSpecImpl for Fixed<i32, B> {
    open spec fn obeys_div_spec() -> bool {
        true
    }

    open spec fn div_req(self, rhs: Self) -> bool {
        B < 32 && i32::MIN <= (self@ as int) * ((1i32 << B) as int) <= i32::MAX && rhs@ != 0 && !((self@ as int) * ((1i32 << B) as int) == i32::MIN && rhs@ == -1)
    }

    open spec fn div_spec(self, rhs: Self) -> Self {
        Self::spec_from_bits(trunc_div((self@ as int) * ((1i32 << B) as int), rhs@ as int) as i32)
    }
}

impl<const B: u32> Rem for Fixed<i32, B> {
    type Output = Self;

    fn rem(self, rhs: Self) -> (r: Self) {
        self.rem(rhs)
    }
}

impl<const B: u32> RemSpecImpl for Fixed<i32, B> {
    open spec fn obeys_rem_spec() -> bool {
        true
    }

    open spec fn rem_req(self, rhs: Self) -> bool {
        rhs@ != 0 && !(self@ == i32::MIN && rhs@ == -1)
    }

    open spec fn rem_spec(self, rhs: Self) -> Self {
        Self::spec_from_bits(trunc_rem(self@ as int, rhs@ as int) as i32)
    }
}

impl<const B: u32> Neg for Fixed<i32, B> {
    type Output = Self;

    fn neg(self) -> (r: Self) {
        Fixed(-self.0)
    }
}

impl<const B: u32> NegSpecImpl for Fixed<i32, B> {
    open spec fn obeys_neg_spec() -> bool {
        true
    }

    open spec fn neg_req(self) -> bool {
        self@ != i32::MIN
    }

    open spec fn neg_spec(self) -> Self {
        Self::spec_from_bits((-self@) as i32)
    }
}

impl<const B: u32> BitAnd for Fixed<i32, B> {
    type Output = Self;

    fn bitand(self, rhs: Self) -> (r: Self) {
        Fixed(self.0 & rhs.0)
    }
}

impl<const B: u32> BitAndSpecImpl for Fixed<i32, B> {
    open spec fn obeys_bitand_spec() -> bool {
        true
    }

    open spec fn bitand_req(self, rhs: Self) -> bool {
        true
    }

    open spec fn bitand_spec(self, rhs: Self) -> Self {
        Self::spec_from_bits(self@ & rhs@)
    }
}

impl<const B: u32> BitOr for Fixed<i32, B> {
    type Output = Self;

    fn bitor(self, rhs: Self) -> (r: Self) {
        Fixed(self.0 | rhs.0)
    }
}

impl<const B: u32> BitOrSpecImpl for Fixed<i32, B> {
    open spec fn obeys_bitor_spec() -> bool {
        true
    }

    open spec fn bitor_req(self, rhs: Self) -> bool {
        true
    }

    open spec fn bitor_spec(self, rhs: Self) -> Self {
        Self::spec_from_bits(self@ | rhs@)
    }
}

impl<const B: u32> BitXor for Fixed<i32, B> {
    type Output = Self;

    fn bitxor(self, rhs: Self) -> (r: Self) {
        Fixed(self.0 ^ rhs.0)
    }
}

impl<const B: u32> BitXorSpecImpl for Fixed<i32, B> {
    open spec fn obeys_bitxor_spec() -> bool {
        true
    }

    open spec fn bitxor_req(self, rhs: Self) -> bool {
        true
    }

    open spec fn bitxor_spec(self, rhs: Self) -> Self {
        Self::spec_from_bits(self@ ^ rhs@)
    }
}

impl<const B: u32> Shl<u32> for Fixed<i32, B> {
    type Output = Self;

    fn shl(self, rhs: u32) -> (r: Self) {
        Fixed(self.0 << rhs)
    }
}

impl<const B: u32> ShlSpecImpl<u32> for Fixed<i32, B> {
    open spec fn obeys_shl_spec() -> bool {
        true
    }

    open spec fn shl_req(self, rhs: u32) -> bool {
        rhs < 32
    }

    open spec fn shl_spec(self, rhs: u32) -> Self {
        Self::spec_from_bits(self@ << rhs)
    }
}

impl<const B: u32> Shr<u32> for Fixed<i32, B> {
    type Output = Self;

    fn shr(self, rhs: u32) -> (r: Self) {
        Fixed(self.0 >> rhs)
    }
}

impl<const B: u32> ShrSpecImpl<u32> for Fixed<i32, B> {
    open spec fn obeys_shr_spec() -> bool {
        true
    }

    open spec fn shr_req(self, rhs: u32) -> bool {
        rhs < 32
    }

    open spec fn shr_spec(self, rhs: u32) -> Self {
        Self::spec_from_bits(self@ >> rhs)
    }
}

impl<const B: u32> BitAndAssign for Fixed<i32, B> {
    fn bitand_assign(&mut self, rhs: Self)
        ensures
            final(self)@ == old(self)@ & rhs@,
            *final(self) == vstd::std_specs::ops::BitAndSpec::bitand_spec(*old(self), rhs),
    {
        self.0 = self.0 & rhs.0;
    }
}

/// The bits that `&` keeps on two `i32` values: those set in both.
proof fn lemma_i32_and_common_bits(a: i32, b: i32, z: i32)
    by (bit_vector)
    ensures
        (a & b) & a == a & b,
        (a & b) & b == a & b,
        (z & a == z && z & b == z) ==> z & (a & b) == z,
{
}

/// `x & y` keeps exactly the bits set in both operands: its bits lie within
/// those of `x` and within those of `y`, and any bits that lie within both
/// lie within it. `x &= y` leaves `x` with these same bits.
pub proof fn lemma_i32_bitand_common_bits<const B: u32>(x: Fixed<i32, B>, y: Fixed<i32, B>, z: i32)
    ensures
        ({
            let r = vstd::std_specs::ops::BitAndSpec::bitand_spec(x, y)@;
            &&& r & x@ == r
            &&& r & y@ == r
            &&& (z & x@ == z && z & y@ == z) ==> z & r == z
        }),
{
    lemma_view_spec_from_bits::<i32, B>(x@ & y@);
    lemma_i32_and_common_bits(x@, y@, z);
}

impl<const B: u32> BitOrAssign for Fixed<i32, B> {
    fn bitor_assign(&mut self, rhs: Self)
        ensures
            final(self)@ == old(self)@ | rhs@,
            *final(self) == vstd::std_specs::ops::BitOrSpec::bitor_spec(*old(self), rhs),
    {
        self.0 = self.0 | rhs.0;
    }
}

impl<const B: u32> BitXorAssign for Fixed<i32, B> {
    fn bitxor_assign(&mut self, rhs: Self)
        ensures
            final(self)@ == old(self)@ ^ rhs@,
            *final(self) == vstd::std_specs::ops::BitXorSpec::bitxor_spec(*old(self), rhs),
    {
        self.0 = self.0 ^ rhs.0;
    }
}

impl<const B: u32> Fixed<u8, B> {
    /// Shifts the value left by `B`, wrapping it into the range of this type.
    pub fn wrapping_from(i: u8) -> (r: Self)
        requires
            B < 8,
        ensures
            r@ == i << B,
    {
        Fixed(i << B)
    }

    /// Makes a value directly from a raw inner value (no shift).
    pub fn from_bits(i: u8) -> (r: Self)
        ensures
            r@ == i,
    {
        Fixed(i)
    }

    /// Unwraps the inner value directly into the base type (no shift).
    pub fn to_bits(self) -> (r: u8)
        ensures
            r == self@,
    {
        self.0
    }

    /// Bitwise Not.
    pub fn not(self) -> (r: Self)
        ensures
            r@ == !self@,
    {
        Fixed(!self.0)
    }

    /// Addition.
    pub fn add(self, rhs: Self) -> (r: Self)
        requires
            u8::MIN <= self@ + rhs@ <= u8::MAX,
        ensures
            r@ == self@ + rhs@,
    {
        Fixed(self.0 + rhs.0)
    }

    /// Subtraction.
    pub fn sub(self, rhs: Self) -> (r: Self)
        requires
            u8::MIN <= self@ - rhs@ <= u8::MAX,
        ensures
            r@ == self@ - rhs@,
    {
        Fixed(self.0 - rhs.0)
    }

    /// Remainder.
    pub fn rem(self, rhs: Self) -> (r: Self)
        requires
            rhs@ != 0,
        ensures
            r@ == self@ % rhs@,
    {
        Fixed(self.0 % rhs.0)
    }

    /// Bitwise AND.
    pub fn bitand(self, rhs: Self) -> (r: Self)
        ensures
            r@ == self@ & rhs@,
    {
        Fixed(self.0 & rhs.0)
    }

    /// Bitwise OR.
    pub fn bitor(self, rhs: Self) -> (r: Self)
        ensures
            r@ == self@ | rhs@,
    {
        Fixed(self.0 | rhs.0)
    }

    /// Bitwise XOR.
    pub fn bitxor(self, rhs: Self) -> (r: Self)
        ensures
            r@ == self@ ^ rhs@,
    {
        Fixed(self.0 ^ rhs.0)
    }

    /// Bit-shift Left.
    pub fn shl(self, rhs: u32) -> (r: Self)
        requires
            rhs < 8,
        ensures
            r@ == self@ << rhs,
    {
        Fixed(self.0 << rhs)
    }

    /// Bit-shift Right.
    pub fn shr(self, rhs: u32) -> (r: Self)
        requires
            rhs < 8,
        ensures
            r@ == self@ >> rhs,
    {
        Fixed(self.0 >> rhs)
    }

    /// Multiply: the raw product, computed in `u32`, shifted right by `B`
    /// and cut to the base type.
    pub fn mul(self, rhs: Self) -> (r: Self)
        requires
            B < 8,
        ensures
            r@ == ((((self@ as int) * (rhs@ as int)) as u32) >> B) as u8,
    {
        proof {
            assert((self@ as int) * (rhs@ as int) <= 0xffff_ffff) by (nonlinear_arith)
                requires
                    self@ <= u8::MAX,
                    rhs@ <= u8::MAX,
                    self@ >= 0,
                    rhs@ >= 0,
            ;
        }
        let raw: u32 = (self.0 as u32) * (rhs.0 as u32);
        Fixed((raw >> B) as u8)
    }

    /// Divide: the raw value, computed in `u32` and scaled up by `1 << B`,
    /// divided by the other raw value and cut to the base type.
    pub fn div(self, rhs: Self) -> (r: Self)
        requires
            B < 8,
            (self@ as int) * ((1u32 << B) as int) <= u32::MAX,
            rhs@ != 0,
        ensures
            r@ == (((self@ as int) * ((1u32 << B) as int)) / (rhs@ as int)) as u8,
    {
        proof {
            assert((self@ as int) * ((1u32 << B) as int) >= 0) by (nonlinear_arith)
                requires
                    self@ >= 0,
            ;
        }
        let m: u32 = (self.0 as u32) * (1u32 << B);
        let d: u32 = m / (rhs.0 as u32);
        Fixed(d as u8)
    }

    /// Fractional part of the value: its low `B` bits.
    pub fn fract(self) -> (r: Self)
        requires
            0 < B <= 8,
        ensures
            r@ == self@ & (u8::MAX >> ((8 - B) as u32)),
    {
        Fixed(self.0 & (u8::MAX >> (8 - B)))
    }

    /// Whole part of the value: its low `B` bits cleared.
    pub fn trunc(self) -> (r: Self)
        requires
            B < 8,
        ensures
            r@ == self@ & (u8::MAX << B),
    {
        Fixed(self.0 & (u8::MAX << B))
    }
}

impl<const B: u32> Not for Fixed<u8, B> {
    type Output = Self;

    fn not(self) -> (r: Self) {
        Fixed(!self.0)
    }
}

impl<const B: u32> NotSpecImpl for Fixed<u8, B> {
    open spec fn obeys_not_spec() -> bool {
        true
    }

    open spec fn not_req(self) -> bool {
        true
    }

    open spec fn not_spec(self) -> Self {
        Self::spec_from_bits(!self@)
    }
}

impl<const B: u32> Add for Fixed<u8, B> {
    type Output = Self;

    fn add(self, rhs: Self) -> (r: Self) {
        Fixed(self.0 + rhs.0)
    }
}

impl<const B: u32> AddSpecImpl for Fixed<u8, B> {
    open spec fn obeys_add_spec() -> bool {
        true
    }

    open spec fn add_req(self, rhs: Self) -> bool {
        u8::MIN <= self@ + rhs@ <= u8::MAX
    }

    open spec fn add_spec(self, rhs: Self) -> Self {
        Self::spec_from_bits((self@ + rhs@) as u8)
    }
}

impl<const B: u32> Sub for Fixed<u8, B> {
    type Output = Self;

    fn sub(self, rhs: Self) -> (r: Self) {
        Fixed(self.0 - rhs.0)
    }
}

impl<const B: u32> SubSpecImpl for Fixed<u8, B> {
    open spec fn obeys_sub_spec() -> bool {
        true
    }

    open spec fn sub_req(self, rhs: Self) -> bool {
        u8::MIN <= self@ - rhs@ <= u8::MAX
    }

    open spec fn sub_spec(self, rhs: Self) -> Self {
        Self::spec_from_bits((self@ - rhs@) as u8)
    }
}

impl<const B: u32> Mul for Fixed<u8, B> {
    type Output = Self;

    fn mul(self, rhs: Self) -> (r: Self) {
        self.mul(rhs)
    }
}

impl<const B: u32> MulSpecImpl for Fixed<u8, B> {
    open spec fn obeys_mul_spec() -> bool {
        true
    }

    open spec fn mul_req(self, rhs: Self) -> bool {
        B < 8
    }

    open spec fn mul_spec(self, rhs: Self) -> Self {
        Self::spec_from_bits(((((self@ as int) * (rhs@ as int)) as u32) >> B) as u8)
    }
}

impl<const B: u32> Div for Fixed<u8, B> {
    type Output = Self;

    fn div(self, rhs: Self) -> (r: Self) {
        self.div(rhs)
    }
}

impl<const B: u32> DivSpecImpl for Fixed<u8, B> {
    open spec fn obeys_div_spec() -> bool {
        true
    }

    open spec fn div_req(self, rhs: Self) -> bool {
        B < 8 && (self@ as int) * ((1u32 << B) as int) <= u32::MAX && rhs@ != 0
    }

    open spec fn div_spec(self, rhs: Self) -> Self {
        Self::spec_from_bits((((self@ as int) * ((1u32 << B) as int)) / (rhs@ as int)) as u8)
    }
}

impl<const B: u32> Rem for Fixed<u8, B> {
    type Output = Self;

    fn rem(self, rhs: Self) -> (r: Self) {
        Fixed(self.0 % rhs.0)
    }
}

impl<const B: u32> RemSpecImpl for Fixed<u8, B> {
    open spec fn obeys_rem_spec() -> bool {
        true
    }

    open spec fn rem_req(self, rhs: Self) -> bool {
        rhs@ != 0
    }

    open spec fn rem_spec(self, rhs: Self) -> Self {
        Self::spec_from_bits(self@ % rhs@)
    }
}

impl<const B: u32> BitAnd for Fixed<u8, B> {
    type Output = Self;

    fn bitand(self, rhs: Self) -> (r: Self) {
        Fixed(self.0 & rhs.0)
    }
}

impl<const B: u32> BitAndSpecImpl for Fixed<u8, B> {
    open spec fn obeys_bitand_spec() -> bool {
        true
    }

    open spec fn bitand_req(self, rhs: Self) -> bool {
        true
    }

    open spec fn bitand_spec(self, rhs: Self) -> Self {
        Self::spec_from_bits(self@ & rhs@)
    }
}

impl<const B: u32> BitOr for Fixed<u8, B> {
    type Output = Self;

    fn bitor(self, rhs: Self) -> (r: Self) {
        Fixed(self.0 | rhs.0)
    }
}

impl<const B: u32> BitOrSpecImpl for Fixed<u8, B> {
    open spec fn obeys_bitor_spec() -> bool {
        true
    }

    open spec fn bitor_req(self, rhs: Self) -> bool {
        true
    }

    open spec fn bitor_spec(self, rhs: Self) -> Self {
        Self::spec_from_bits(self@ | rhs@)
    }
}

impl<const B: u32> BitXor for Fixed<u8, B> {
    type Output = Self;

    fn bitxor(self, rhs: Self) -> (r: Self) {
        Fixed(self.0 ^ rhs.0)
    }
}

impl<const B: u32> BitXorSpecImpl for Fixed<u8, B> {
    open spec fn obeys_bitxor_spec() -> bool {
        true
    }

    open spec fn bitxor_req(self, rhs: Self) -> bool {
        true
    }

    open spec fn bitxor_spec(self, rhs: Self) -> Self {
        Self::spec_from_bits(self@ ^ rhs@)
    }
}

impl<const B: u32> Shl<u32> for Fixed<u8, B> {
    type Output = Self;

    fn shl(self, rhs: u32) -> (r: Self) {
        Fixed(self.0 << rhs)
    }
}

impl<const B: u32> ShlSpecImpl<u32> for Fixed<u8, B> {
    open spec fn obeys_shl_spec() -> bool {
        true
    }

    open spec fn shl_req(self, rhs: u32) -> bool {
        rhs < 8
    }

    open spec fn shl_spec(self, rhs: u32) -> Self {
        Self::spec_from_bits(self@ << rhs)
    }
}

impl<const B: u32> Shr<u32> for Fixed<u8, B> {
    type Output = Self;

    fn shr(self, rhs: u32) -> (r: Self) {
        Fixed(self.0 >> rhs)
    }
}

impl<const B: u32> ShrSpecImpl<u32> for Fixed<u8, B> {
    open spec fn obeys_shr_spec() -> bool {
        true
    }

    open spec fn shr_req(self, rhs: u32) -> bool {
        rhs < 8
    }

    open spec fn shr_spec(self, rhs: u32) -> Self {
        Self::spec_from_bits(self@ >> rhs)
    }
}

impl<const B: u32> BitAndAssign for Fixed<u8, B> {
    fn bitand_assign(&mut self, rhs: Self)
        ensures
            final(self)@ == old(self)@ & rhs@,
            *final(self) == vstd::std_specs::ops::BitAndSpec::bitand_spec(*old(self), rhs),
    {
        self.0 = self.0 & rhs.0;
    }
}

impl<const B: u32> BitOrAssign for Fixed<u8, B> {
    fn bitor_assign(&mut self, rhs: Self)
        ensures
            final(self)@ == old(self)@ | rhs@,
            *final(self) == vstd::std_specs::ops::BitOrSpec::bitor_spec(*old(self), rhs),
    {
        self.0 = self.0 | rhs.0;
    }
}

impl<const B: u32> BitXorAssign for Fixed<u8, B> {
    fn bitxor_assign(&mut self, rhs: Self)
        ensures
            final(self)@ == old(self)@ ^ rhs@,
            *final(self) == vstd::std_specs::ops::BitXorSpec::bitxor_spec(*old(self), rhs),
    {
        self.0 = self.0 ^ rhs.0;
    }
}

impl<const B: u32> Fixed<u16, B> {
    /// Shifts the value left by `B`, wrapping it into the range of this type.
    pub fn wrapping_from(i: u16) -> (r: Self)
        requires
            B < 16,
        ensures
            r@ == i << B,
    {
        Fixed(i << B)
    }

    /// Makes a value directly from a raw inner value (no shift).
    pub fn from_bits(i: u16) -> (r: Self)
        ensures
            r@ == i,
    {
        Fixed(i)
    }

    /// Unwraps the inner value directly into the base type (no shift).
    pub fn to_bits(self) -> (r: u16)
        ensures
            r == self@,
    {
        self.0
    }

    /// Bitwise Not.
    pub fn not(self) -> (r: Self)
        ensures
            r@ == !self@,
    {
        Fixed(!self.0)
    }

    /// Addition.
    pub fn add(self, rhs: Self) -> (r: Self)
        requires
            u16::MIN <= self@ + rhs@ <= u16::MAX,
        ensures
            r@ == self@ + rhs@,
    {
        Fixed(self.0 + rhs.0)
    }

    /// Subtraction.
    pub fn sub(self, rhs: Self) -> (r: Self)
        requires
            u16::MIN <= self@ - rhs@ <= u16::MAX,
        ensures
            r@ == self@ - rhs@,
    {
        Fixed(self.0 - rhs.0)
    }

    /// Remainder.
    pub fn rem(self, rhs: Self) -> (r: Self)
        requires
            rhs@ != 0,
        ensures
            r@ == self@ % rhs@,
    {
        Fixed(self.0 % rhs.0)
    }

    /// Bitwise AND.
    pub fn bitand(self, rhs: Self) -> (r: Self)
        ensures
            r@ == self@ & rhs@,
    {
        Fixed(self.0 & rhs.0)
    }

    /// Bitwise OR.
    pub fn bitor(self, rhs: Self) -> (r: Self)
        ensures
            r@ == self@ | rhs@,
    {
        Fixed(self.0 | rhs.0)
    }

    /// Bitwise XOR.
    pub fn bitxor(self, rhs: Self) -> (r: Self)
        ensures
            r@ == self@ ^ rhs@,
    {
        Fixed(self.0 ^ rhs.0)
    }

    /// Bit-shift Left.
    pub fn shl(self, rhs: u32) -> (r: Self)
        requires
            rhs < 16,
        ensures
            r@ == self@ << rhs,
    {
        Fixed(self.0 << rhs)
    }

    /// Bit-shift Right.
    pub fn shr(self, rhs: u32) -> (r: Self)
        requires
            rhs < 16,
        ensures
            r@ == self@ >> rhs,
    {
        Fixed(self.0 >> rhs)
    }

    /// Multiply: the raw product, computed in `u32`, shifted right by `B`
    /// and cut to the base type.
    pub fn mul(self, rhs: Self) -> (r: Self)
        requires
            B < 16,
        ensures
            r@ == ((((self@ as int) * (rhs@ as int)) as u32) >> B) as u16,
    {
        proof {
            assert((self@ as int) * (rhs@ as int) <= 0xffff_ffff) by (nonlinear_arith)
                requires
                    self@ <= u16::MAX,
                    rhs@ <= u16::MAX,
                    self@ >= 0,
                    rhs@ >= 0,
            ;
        }
        let raw: u32 = (self.0 as u32) * (rhs.0 as u32);
        Fixed((raw >> B) as u16)
    }

    /// Divide: the raw value, computed in `u32` and scaled up by `1 << B`,
    /// divided by the other raw value and cut to the base type.
    pub fn div(self, rhs: Self) -> (r: Self)
        requires
            B < 16,
            (self@ as int) * ((1u32 << B) as int) <= u32::MAX,
            rhs@ != 0,
        ensures
            r@ == (((self@ as int) * ((1u32 << B) as int)) / (rhs@ as int)) as u16,
    {
        proof {
            assert((self@ as int) * ((1u32 << B) as int) >= 0) by (nonlinear_arith)
                requires
                    self@ >= 0,
            ;
        }
        let m: u32 = (self.0 as u32) * (1u32 << B);
        let d: u32 = m / (rhs.0 as u32);
        Fixed(d as u16)
    }

    /// Fractional part of the value: its low `B` bits.
    pub fn fract(self) -> (r: Self)
        requires
            0 < B <= 16,
        ensures
            r@ == self@ & (u16::MAX >> ((16 - B) as u32)),
    {
        Fixed(self.0 & (u16::MAX >> (16 - B)))
    }

    /// Whole part of the value: its low `B` bits cleared.
    pub fn trunc(self) -> (r: Self)
        requires
            B < 16,
        ensures
            r@ == self@ & (u16::MAX << B),
    {
        Fixed(self.0 & (u16::MAX << B))
    }
}

impl<const B: u32> Not for Fixed<u16, B> {
    type Output = Self;

    fn not(self) -> (r: Self) {
        Fixed(!self.0)
    }
}

impl<const B: u32> NotSpecImpl for Fixed<u16, B> {
    open spec fn obeys_not_spec() -> bool {
        true
    }

    open spec fn not_req(self) -> bool {
        true
    }

    open spec fn not_spec(self) -> Self {
        Self::spec_from_bits(!self@)
    }
}

impl<const B: u32> Add for Fixed<u16, B> {
    type Output = Self;

    fn add(self, rhs: Self) -> (r: Self) {
        Fixed(self.0 + rhs.0)
    }
}

impl<const B: u32> AddSpecImpl for Fixed<u16, B> {
    open spec fn obeys_add_spec() -> bool {
        true
    }

    open spec fn add_req(self, rhs: Self) -> bool {
        u16::MIN <= self@ + rhs@ <= u16::MAX
    }

    open spec fn add_spec(self, rhs: Self) -> Self {
        Self::spec_from_bits((self@ + rhs@) as u16)
    }
}

impl<const B: u32> Sub for Fixed<u16, B> {
    type Output = Self;

    fn sub(self, rhs: Self) -> (r: Self) {
        Fixed(self.0 - rhs.0)
    }
}

impl<const B: u32> SubSpecImpl for Fixed<u16, B> {
    open spec fn obeys_sub_spec() -> bool {
        true
    }

    open spec fn sub_req(self, rhs: Self) -> bool {
        u16::MIN <= self@ - rhs@ <= u16::MAX
    }

    open spec fn sub_spec(self, rhs: Self) -> Self {
        Self::spec_from_bits((self@ - rhs@) as u16)
    }
}

impl<const B: u32> Mul for Fixed<u16, B> {
    type Output = Self;

    fn mul(self, rhs: Self) -> (r: Self) {
        self.mul(rhs)
    }
}

impl<const B: u32> MulSpecImpl for Fixed<u16, B> {
    open spec fn obeys_mul_spec() -> bool {
        true
    }

    open spec fn mul_req(self, rhs: Self) -> bool {
        B < 16
    }

    open spec fn mul_spec(self, rhs: Self) -> Self {
        Self::spec_from_bits(((((self@ as int) * (rhs@ as int)) as u32) >> B) as u16)
    }
}

impl<const B: u32> Div for Fixed<u16, B> {
    type Output = Self;

    fn div(self, rhs: Self) -> (r: Self) {
        self.div(rhs)
    }
}

impl<const B: u32> DivSpecImpl for Fixed<u16, B> {
    open spec fn obeys_div_spec() -> bool {
        true
    }

    open spec fn div_req(self, rhs: Self) -> bool {
        B < 16 && (self@ as int) * ((1u32 << B) as int) <= u32::MAX && rhs@ != 0
    }

    open spec fn div_spec(self, rhs: Self) -> Self {
        Self::spec_from_bits((((self@ as int) * ((1u32 << B) as int)) / (rhs@ as int)) as u16)
    }
}

impl<const B: u32> Rem for Fixed<u16, B> {
    type Output = Self;

    fn rem(self, rhs: Self) -> (r: Self) {
        Fixed(self.0 % rhs.0)
    }
}

impl<const B: u32> RemSpecImpl for Fixed<u16, B> {
    open spec fn obeys_rem_spec() -> bool {
        true
    }

    open spec fn rem_req(self, rhs: Self) -> bool {
        rhs@ != 0
    }

    open spec fn rem_spec(self, rhs: Self) -> Self {
        Self::spec_from_bits(self@ % rhs@)
    }
}

impl<const B: u32> BitAnd for Fixed<u16, B> {
    type Output = Self;

    fn bitand(self, rhs: Self) -> (r: Self) {
        Fixed(self.0 & rhs.0)
    }
}

impl<const B: u32> BitAndSpecImpl for Fixed<u16, B> {
    open spec fn obeys_bitand_spec() -> bool {
        true
    }

    open spec fn bitand_req(self, rhs: Self) -> bool {
        true
    }

    open spec fn bitand_spec(self, rhs: Self) -> Self {
        Self::spec_from_bits(self@ & rhs@)
    }
}

impl<const B: u32> BitOr for Fixed<u16, B> {
    type Output = Self;

    fn bitor(self, rhs: Self) -> (r: Self) {
        Fixed(self.0 | rhs.0)
    }
}

impl<const B: u32> BitOrSpecImpl for Fixed<u16, B> {
    open spec fn obeys_bitor_spec() -> bool {
        true
    }

    open spec fn bitor_req(self, rhs: Self) -> bool {
        true
    }

    open spec fn bitor_spec(self, rhs: Self) -> Self {
        Self::spec_from_bits(self@ | rhs@)
    }
}

impl<const B: u32> BitXor for Fixed<u16, B> {
    type Output = Self;

    fn bitxor(self, rhs: Self) -> (r: Self) {
        Fixed(self.0 ^ rhs.0)
    }
}

impl<const B: u32> BitXorSpecImpl for Fixed<u16, B> {
    open spec fn obeys_bitxor_spec() -> bool {
        true
    }

    open spec fn bitxor_req(self, rhs: Self) -> bool {
        true
    }

    open spec fn bitxor_spec(self, rhs: Self) -> Self {
        Self::spec_from_bits(self@ ^ rhs@)
    }
}

impl<const B: u32> Shl<u32> for Fixed<u16, B> {
    type Output = Self;

    fn shl(self, rhs: u32) -> (r: Self) {
        Fixed(self.0 << rhs)
    }
}

impl<const B: u32> ShlSpecImpl<u32> for Fixed<u16, B> {
    open spec fn obeys_shl_spec() -> bool {
        true
    }

    open spec fn shl_req(self, rhs: u32) -> bool {
        rhs < 16
    }

    open spec fn shl_spec(self, rhs: u32) -> Self {
        Self::spec_from_bits(self@ << rhs)
    }
}

impl<const B: u32> Shr<u32> for Fixed<u16, B> {
    type Output = Self;

    fn shr(self, rhs: u32) -> (r: Self) {
        Fixed(self.0 >> rhs)
    }
}

impl<const B: u32> ShrSpecImpl<u32> for Fixed<u16, B> {
    open spec fn obeys_shr_spec() -> bool {
        true
    }

    open spec fn shr_req(self, rhs: u32) -> bool {
        rhs < 16
    }

    open spec fn shr_spec(self, rhs: u32) -> Self {
        Self::spec_from_bits(self@ >> rhs)
    }
}

impl<const B: u32> BitAndAssign for Fixed<u16, B> {
    fn bitand_assign(&mut self, rhs: Self)
        ensures
            final(self)@ == old(self)@ & rhs@,
            *final(self) == vstd::std_specs::ops::BitAndSpec::bitand_spec(*old(self), rhs),
    {
        self.0 = self.0 & rhs.0;
    }
}

impl<const B: u32> BitOrAssign for Fixed<u16, B> {
    fn bitor_assign(&mut self, rhs: Self)
        ensures
            final(self)@ == old(self)@ | rhs@,
            *final(self) == vstd::std_specs::ops::BitOrSpec::bitor_spec(*old(self), rhs),
    {
        self.0 = self.0 | rhs.0;
    }
}

impl<const B: u32> BitXorAssign for Fixed<u16, B> {
    fn bitxor_assign(&mut self, rhs: Self)
        ensures
            final(self)@ == old(self)@ ^ rhs@,
            *final(self) == vstd::std_specs::ops::BitXorSpec::bitxor_spec(*old(self), rhs),
    {
        self.0 = self.0 ^ rhs.0;
    }
}

impl<const B: u32> Fixed<u32, B> {
    /// Shifts the value left by `B`, wrapping it into the range of this type.
    pub fn wrapping_from(i: u32) -> (r: Self)
        requires
            B < 32,
        ensures
            r@ == i << B,
    {
        Fixed(i << B)
    }

    /// Makes a value directly from a raw inner value (no shift).
    pub fn from_bits(i: u32) -> (r: Self)
        ensures
            r@ == i,
    {
        Fixed(i)
    }

    /// Unwraps the inner value directly into the base type (no shift).
    pub fn to_bits(self) -> (r: u32)
        ensures
            r == self@,
    {
        self.0
    }

    /// Bitwise Not.
    pub fn not(self) -> (r: Self)
        ensures
            r@ == !self@,
    {
        Fixed(!self.0)
    }

    /// Addition.
    pub fn add(self, rhs: Self) -> (r: Self)
        requires
            u32::MIN <= self@ + rhs@ <= u32::MAX,
        ensures
            r@ == self@ + rhs@,
    {
        Fixed(self.0 + rhs.0)
    }

    /// Subtraction.
    pub fn sub(self, rhs: Self) -> (r: Self)
        requires
            u32::MIN <= self@ - rhs@ <= u32::MAX,
        ensures
            r@ == self@ - rhs@,
    {
        Fixed(self.0 - rhs.0)
    }

    /// Remainder.
    pub fn rem(self, rhs: Self) -> (r: Self)
        requires
            rhs@ != 0,
        ensures
            r@ == self@ % rhs@,
    {
        Fixed(self.0 % rhs.0)
    }

    /// Bitwise AND.
    pub fn bitand(self, rhs: Self) -> (r: Self)
        ensures
            r@ == self@ & rhs@,
    {
        Fixed(self.0 & rhs.0)
    }

    /// Bitwise OR.
    pub fn bitor(self, rhs: Self) -> (r: Self)
        ensures
            r@ == self@ | rhs@,
    {
        Fixed(self.0 | rhs.0)
    }

    /// Bitwise XOR.
    pub fn bitxor(self, rhs: Self) -> (r: Self)
        ensures
            r@ == self@ ^ rhs@,
    {
        Fixed(self.0 ^ rhs.0)
    }

    /// Bit-shift Left.
    pub fn shl(self, rhs: u32) -> (r: Self)
        requires
            rhs < 32,
        ensures
            r@ == self@ << rhs,
    {
        Fixed(self.0 << rhs)
    }

    /// Bit-shift Right.
    pub fn shr(self, rhs: u32) -> (r: Self)
        requires
            rhs < 32,
        ensures
            r@ == self@ >> rhs,
    {
        Fixed(self.0 >> rhs)
    }

    /// Multiply: the raw product, computed in `u32`, shifted right by `B`
    /// and cut to the base type.
    pub fn mul(self, rhs: Self) -> (r: Self)
        requires
            B < 32,
            (self@ as int) * (rhs@ as int) <= u32::MAX,
        ensures
            r@ == ((((self@ as int) * (rhs@ as int)) as u32) >> B) as u32,
    {
        let raw: u32 = (self.0 as u32) * (rhs.0 as u32);
        Fixed((raw >> B) as u32)
    }

    /// Divide: the raw value, computed in `u32` and scaled up by `1 << B`,
    /// divided by the other raw value and cut to the base type.
    pub fn div(self, rhs: Self) -> (r: Self)
        requires
            B < 32,
            (self@ as int) * ((1u32 << B) as int) <= u32::MAX,
            rhs@ != 0,
        ensures
            r@ == (((self@ as int) * ((1u32 << B) as int)) / (rhs@ as int)) as u32,
    {
        proof {
            assert((self@ as int) * ((1u32 << B) as int) >= 0) by (nonlinear_arith)
                requires
                    self@ >= 0,
            ;
        }
        let m: u32 = (self.0 as u32) * (1u32 << B);
        let d: u32 = m / (rhs.0 as u32);
        Fixed(d as u32)
    }

    /// Fractional part of the value: its low `B` bits.
    pub fn fract(self) -> (r: Self)
        requires
            0 < B <= 32,
        ensures
            r@ == self@ & (u32::MAX >> ((32 - B) as u32)),
    {
        Fixed(self.0 & (u32::MAX >> (32 - B)))
    }

    /// Whole part of the value: its low `B` bits cleared.
    pub fn trunc(self) -> (r: Self)
        requires
            B < 32,
        ensures
            r@ == self@ & (u32::MAX << B),
    {
        Fixed(self.0 & (u32::MAX << B))
    }
}

impl<const B: u32> Not for Fixed<u32, B> {
    type Output = Self;

    fn not(self) -> (r: Self) {
        Fixed(!self.0)
    }
}

impl<const B: u32> NotSpecImpl for Fixed<u32, B> {
    open spec fn obeys_not_spec() -> bool {
        true
    }

    open spec fn not_req(self) -> bool {
        true
    }

    open spec fn not_spec(self) -> Self {
        Self::spec_from_bits(!self@)
    }
}

impl<const B: u32> Add for Fixed<u32, B> {
    type Output = Self;

    fn add(self, rhs: Self) -> (r: Self) {
        Fixed(self.0 + rhs.0)
    }
}

impl<const B: u32> AddSpecImpl for Fixed<u32, B> {
    open spec fn obeys_add_spec() -> bool {
        true
    }

    open spec fn add_req(self, rhs: Self) -> bool {
        u32::MIN <= self@ + rhs@ <= u32::MAX
    }

    open spec fn add_spec(self, rhs: Self) -> Self {
        Self::spec_from_bits((self@ + rhs@) as u32)
    }
}

impl<const B: u32> Sub for Fixed<u32, B> {
    type Output = Self;

    fn sub(self, rhs: Self) -> (r: Self) {
        Fixed(self.0 - rhs.0)
    }
}

impl<const B: u32> SubSpecImpl for Fixed<u32, B> {
    open spec fn obeys_sub_spec() -> bool {
        true
    }

    open spec fn sub_req(self, rhs: Self) -> bool {
        u32::MIN <= self@ - rhs@ <= u32::MAX
    }

    open spec fn sub_spec(self, rhs: Self) -> Self {
        Self::spec_from_bits((self@ - rhs@) as u32)
    }
}

impl<const B: u32> Mul for Fixed<u32, B> {
    type Output = Self;

    fn mul(self, rhs: Self) -> (r: Self) {
        self.mul(rhs)
    }
}

impl<const B: u32> MulSpecImpl for Fixed<u32, B> {
    open spec fn obeys_mul_spec() -> bool {
        true
    }

    open spec fn mul_req(self, rhs: Self) -> bool {
        B < 32 && (self@ as int) * (rhs@ as int) <= u32::MAX
    }

    open spec fn mul_spec(self, rhs: Self) -> Self {
        Self::spec_from_bits(((((self@ as int) * (rhs@ as int)) as u32) >> B) as u32)
    }
}

impl<const B: u32> Div for Fixed<u32, B> {
    type Output = Self;

    fn div(self, rhs: Self) -> (r: Self) {
        self.div(rhs)
    }
}

impl<const B: u32> DivSpecImpl for Fixed<u32, B> {
    open spec fn obeys_div_spec() -> bool {
        true
    }

    open spec fn div_req(self, rhs: Self) -> bool {
        B < 32 && (self@ as int) * ((1u32 << B) as int) <= u32::MAX && rhs@ != 0
    }

    open spec fn div_spec(self, rhs: Self) -> Self {
        Self::spec_from_bits((((self@ as int) * ((1u32 << B) as int)) / (rhs@ as int)) as u32)
    }
}

impl<const B: u32> Rem for Fixed<u32, B> {
    type Output = Self;

    fn rem(self, rhs: Self) -> (r: Self) {
        Fixed(self.0 % rhs.0)
    }
}

impl<const B: u32> RemSpecImpl for Fixed<u32, B> {
    open spec fn obeys_rem_spec() -> bool {
        true
    }

    open spec fn rem_req(self, rhs: Self) -> bool {
        rhs@ != 0
    }

    open spec fn rem_spec(self, rhs: Self) -> Self {
        Self::spec_from_bits(self@ % rhs@)
    }
}

impl<const B: u32> BitAnd for Fixed<u32, B> {
    type Output = Self;

    fn bitand(self, rhs: Self) -> (r: Self) {
        Fixed(self.0 & rhs.0)
    }
}

impl<const B: u32> BitAndSpecImpl for Fixed<u32, B> {
    open spec fn obeys_bitand_spec() -> bool {
        true
    }

    open spec fn bitand_req(self, rhs: Self) -> bool {
        true
    }

    open spec fn bitand_spec(self, rhs: Self) -> Self {
        Self::spec_from_bits(self@ & rhs@)
    }
}

impl<const B: u32> BitOr for Fixed<u32, B> {
    type Output = Self;

    fn bitor(self, rhs: Self) -> (r: Self) {
        Fixed(self.0 | rhs.0)
    }
}

impl<const B: u32> BitOrSpecImpl for Fixed<u32, B> {
    open spec fn obeys_bitor_spec() -> bool {
        true
    }

    open spec fn bitor_req(self, rhs: Self) -> bool {
        true
    }

    open spec fn bitor_spec(self, rhs: Self) -> Self {
        Self::spec_from_bits(self@ | rhs@)
    }
}

impl<const B: u32> BitXor for Fixed<u32, B> {
    type Output = Self;

    fn bitxor(self, rhs: Self) -> (r: Self) {
        Fixed(self.0 ^ rhs.0)
    }
}

impl<const B: u32> BitXorSpecImpl for Fixed<u32, B> {
    open spec fn obeys_bitxor_spec() -> bool {
        true
    }

    open spec fn bitxor_req(self, rhs: Self) -> bool {
        true
    }

    open spec fn bitxor_spec(self, rhs: Self) -> Self {
        Self::spec_from_bits(self@ ^ rhs@)
    }
}

impl<const B: u32> Shl<u32> for Fixed<u32, B> {
    type Output = Self;

    fn shl(self, rhs: u32) -> (r: Self) {
        Fixed(self.0 << rhs)
    }
}

impl<const B: u32> ShlSpecImpl<u32> for Fixed<u32, B> {
    open spec fn obeys_shl_spec() -> bool {
        true
    }

    open spec fn shl_req(self, rhs: u32) -> bool {
        rhs < 32
    }

    open spec fn shl_spec(self, rhs: u32) -> Self {
        Self::spec_from_bits(self@ << rhs)
    }
}

impl<const B: u32> Shr<u32> for Fixed<u32, B> {
    type Output = Self;

    fn shr(self, rhs: u32) -> (r: Self) {
        Fixed(self.0 >> rhs)
    }
}

impl<const B: u32> ShrSpecImpl<u32> for Fixed<u32, B> {
    open spec fn obeys_shr_spec() -> bool {
        true
    }

    open spec fn shr_req(self, rhs: u32) -> bool {
        rhs < 32
    }

    open spec fn shr_spec(self, rhs: u32) -> Self {
        Self::spec_from_bits(self@ >> rhs)
    }
}

impl<const B: u32> BitAndAssign for Fixed<u32, B> {
    fn bitand_assign(&mut self, rhs: Self)
        ensures
            final(self)@ == old(self)@ & rhs@,
            *final(self) == vstd::std_specs::ops::BitAndSpec::bitand_spec(*old(self), rhs),
    {
        self.0 = self.0 & rhs.0;
    }
}

impl<const B: u32> BitOrAssign for Fixed<u32, B> {
    fn bitor_assign(&mut self, rhs: Self)
        ensures
            final(self)@ == old(self)@ | rhs@,
            *final(self) == vstd::std_specs::ops::BitOrSpec::bitor_spec(*old(self), rhs),
    {
        self.0 = self.0 | rhs.0;
    }
}

impl<const B: u32> BitXorAssign for Fixed<u32, B> {
    fn bitxor_assign(&mut self, rhs: Self)
        ensures
            final(self)@ == old(self)@ ^ rhs@,
            *final(self) == vstd::std_specs::ops::BitXorSpec::bitxor_spec(*old(self), rhs),
    {
        self.0 = self.0 ^ rhs.0;
    }
}

/// Negating a value twice gives it back.
pub proof fn lemma_neg_neg_i16<const B: u32>(x: Fixed<i16, B>)
    requires
        x@ != i16::MIN,
    ensures
        NegSpec::neg_req(NegSpec::neg_spec(x)),
        NegSpec::neg_spec(NegSpec::neg_spec(x)) == x,
{
    let n = NegSpec::neg_spec(x);
    assert(n@ == -x@);
    assert(NegSpec::neg_spec(n) == x);
}

/// Adding a value and then taking it away again gives the first value back,
/// as long as the sum fits.
pub proof fn lemma_add_sub_i16<const B: u32>(x: Fixed<i16, B>, y: Fixed<i16, B>)
    requires
        i16::MIN <= x@ + y@ <= i16::MAX,
    ensures
        SubSpec::sub_req(AddSpec::add_spec(x, y), y),
        SubSpec::sub_spec(AddSpec::add_spec(x, y), y) == x,
{
    let s = AddSpec::add_spec(x, y);
    assert(s@ == x@ + y@);
    assert(SubSpec::sub_spec(s, y) == x);
}


/// The operators on [`Fixed`] values of base `i8` act on the raw values:
/// `+` and `-` add and subtract them (where the result fits), unary `-` negates,
/// `!`, `&`, `|`, `^` work bit by bit, and `<<`, `>>` shift by `k`.
pub proof fn lemma_i8_operators_on_raw<const B: u32>(x: Fixed<i8, B>, y: Fixed<i8, B>, k: u32)
    ensures
        i8::MIN <= x@ + y@ <= i8::MAX ==> vstd::std_specs::ops::AddSpec::add_spec(x, y)@ == x@ + y@,
        i8::MIN <= x@ - y@ <= i8::MAX ==> vstd::std_specs::ops::SubSpec::sub_spec(x, y)@ == x@ - y@,
        i8::MIN <= -x@ <= i8::MAX ==> vstd::std_specs::ops::NegSpec::neg_spec(x)@ == -x@,
        vstd::std_specs::ops::NotSpec::not_spec(x)@ == !x@,
        vstd::std_specs::ops::BitAndSpec::bitand_spec(x, y)@ == x@ & y@,
        vstd::std_specs::ops::BitOrSpec::bitor_spec(x, y)@ == x@ | y@,
        vstd::std_specs::ops::BitXorSpec::bitxor_spec(x, y)@ == x@ ^ y@,
        vstd::std_specs::ops::ShlSpec::shl_spec(x, k)@ == x@ << k,
        vstd::std_specs::ops::ShrSpec::shr_spec(x, k)@ == x@ >> k,
{
    broadcast use lemma_view_spec_from_bits;
}

/// The operators on [`Fixed`] values of base `i16` act on the raw values:
/// `+` and `-` add and subtract them (where the result fits), unary `-` negates,
/// `!`, `&`, `|`, `^` work bit by bit, and `<<`, `>>` shift by `k`.
pub proof fn lemma_i16_operators_on_raw<const B: u32>(x: Fixed<i16, B>, y: Fixed<i16, B>, k: u32)
    ensures
        i16::MIN <= x@ + y@ <= i16::MAX ==> vstd::std_specs::ops::AddSpec::add_spec(x, y)@ == x@ + y@,
        i16::MIN <= x@ - y@ <= i16::MAX ==> vstd::std_specs::ops::SubSpec::sub_spec(x, y)@ == x@ - y@,
        i16::MIN <= -x@ <= i16::MAX ==> vstd::std_specs::ops::NegSpec::neg_spec(x)@ == -x@,
        vstd::std_specs::ops::NotSpec::not_spec(x)@ == !x@,
        vstd::std_specs::ops::BitAndSpec::bitand_spec(x, y)@ == x@ & y@,
        vstd::std_specs::ops::BitOrSpec::bitor_spec(x, y)@ == x@ | y@,
        vstd::std_specs::ops::BitXorSpec::bitxor_spec(x, y)@ == x@ ^ y@,
        vstd::std_specs::ops::ShlSpec::shl_spec(x, k)@ == x@ << k,
        vstd::std_specs::ops::ShrSpec::shr_spec(x, k)@ == x@ >> k,
{
    broadcast use lemma_view_spec_from_bits;
}

/// The operators on [`Fixed`] values of base `i32` act on the raw values:
/// `+` and `-` add and subtract them (where the result fits), unary `-` negates,
/// `!`, `&`, `|`, `^` work bit by bit, and `<<`, `>>` shift by `k`.
pub proof fn lemma_i32_operators_on_raw<const B: u32>(x: Fixed<i32, B>, y: Fixed<i32, B>, k: u32)
    ensures
        i32::MIN <= x@ + y@ <= i32::MAX ==> vstd::std_specs::ops::AddSpec::add_spec(x, y)@ == x@ + y@,
        i32::MIN <= x@ - y@ <= i32::MAX ==> vstd::std_specs::ops::SubSpec::sub_spec(x, y)@ == x@ - y@,
        i32::MIN <= -x@ <= i32::MAX ==> vstd::std_specs::ops::NegSpec::neg_spec(x)@ == -x@,
        vstd::std_specs::ops::NotSpec::not_spec(x)@ == !x@,
        vstd::std_specs::ops::BitAndSpec::bitand_spec(x, y)@ == x@ & y@,
        vstd::std_specs::ops::BitOrSpec::bitor_spec(x, y)@ == x@ | y@,
        vstd::std_specs::ops::BitXorSpec::bitxor_spec(x, y)@ == x@ ^ y@,
        vstd::std_specs::ops::ShlSpec::shl_spec(x, k)@ == x@ << k,
        vstd::std_specs::ops::ShrSpec::shr_spec(x, k)@ == x@ >> k,
{
    broadcast use lemma_view_spec_from_bits;
}

/// The operators on [`Fixed`] values of base `u8` act on the raw values:
/// `+` and `-` add and subtract them (where the result fits),
/// `!`, `&`, `|`, `^` work bit by bit, and `<<`, `>>` shift by `k`.
pub proof fn lemma_u8_operators_on_raw<const B: u32>(x: Fixed<u8, B>, y: Fixed<u8, B>, k: u32)
    ensures
        u8::MIN <= x@ + y@ <= u8::MAX ==> vstd::std_specs::ops::AddSpec::add_spec(x, y)@ == x@ + y@,
        u8::MIN <= x@ - y@ <= u8::MAX ==> vstd::std_specs::ops::SubSpec::sub_spec(x, y)@ == x@ - y@,
        vstd::std_specs::ops::NotSpec::not_spec(x)@ == !x@,
        vstd::std_specs::ops::BitAndSpec::bitand_spec(x, y)@ == x@ & y@,
        vstd::std_specs::ops::BitOrSpec::bitor_spec(x, y)@ == x@ | y@,
        vstd::std_specs::ops::BitXorSpec::bitxor_spec(x, y)@ == x@ ^ y@,
        vstd::std_specs::ops::ShlSpec::shl_spec(x, k)@ == x@ << k,
        vstd::std_specs::ops::ShrSpec::shr_spec(x, k)@ == x@ >> k,
{
    broadcast use lemma_view_spec_from_bits;
}

/// The operators on [`Fixed`] values of base `u16` act on the raw values:
/// `+` and `-` add and subtract them (where the result fits),
/// `!`, `&`, `|`, `^` work bit by bit, and `<<`, `>>` shift by `k`.
pub proof fn lemma_u16_operators_on_raw<const B: u32>(x: Fixed<u16, B>, y: Fixed<u16, B>, k: u32)
    ensures
        u16::MIN <= x@ + y@ <= u16::MAX ==> vstd::std_specs::ops::AddSpec::add_spec(x, y)@ == x@ + y@,
        u16::MIN <= x@ - y@ <= u16::MAX ==> vstd::std_specs::ops::SubSpec::sub_spec(x, y)@ == x@ - y@,
        vstd::std_specs::ops::NotSpec::not_spec(x)@ == !x@,
        vstd::std_specs::ops::BitAndSpec::bitand_spec(x, y)@ == x@ & y@,
        vstd::std_specs::ops::BitOrSpec::bitor_spec(x, y)@ == x@ | y@,
        vstd::std_specs::ops::BitXorSpec::bitxor_spec(x, y)@ == x@ ^ y@,
        vstd::std_specs::ops::ShlSpec::shl_spec(x, k)@ == x@ << k,
        vstd::std_specs::ops::ShrSpec::shr_spec(x, k)@ == x@ >> k,
{
    broadcast use lemma_view_spec_from_bits;
}

/// The operators on [`Fixed`] values of base `u32` act on the raw values:
/// `+` and `-` add and subtract them (where the result fits),
/// `!`, `&`, `|`, `^` work bit by bit, and `<<`, `>>` shift by `k`.
pub proof fn lemma_u32_operators_on_raw<const B: u32>(x: Fixed<u32, B>, y: Fixed<u32, B>, k: u32)
    ensures
        u32::MIN <= x@ + y@ <= u32::MAX ==> vstd::std_specs::ops::AddSpec::add_spec(x, y)@ == x@ + y@,
        u32::MIN <= x@ - y@ <= u32::MAX ==> vstd::std_specs::ops::SubSpec::sub_spec(x, y)@ == x@ - y@,
        vstd::std_specs::ops::NotSpec::not_spec(x)@ == !x@,
        vstd::std_specs::ops::BitAndSpec::bitand_spec(x, y)@ == x@ & y@,
        vstd::std_specs::ops::BitOrSpec::bitor_spec(x, y)@ == x@ | y@,
        vstd::std_specs::ops::BitXorSpec::bitxor_spec(x, y)@ == x@ ^ y@,
        vstd::std_specs::ops::ShlSpec::shl_spec(x, k)@ == x@ << k,
        vstd::std_specs::ops::ShrSpec::shr_spec(x, k)@ == x@ >> k,
{
    broadcast use lemma_view_spec_from_bits;
}

} // verus!
