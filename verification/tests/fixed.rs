use gba::fixed::{i16fx14, i16fx8, i32fx8, Fixed};

#[test]
fn fixed_wrapping_from() {
    assert_eq!(i16fx8::wrapping_from(3).to_bits(), 0x300);
    assert_eq!(i16fx8::wrapping_from(-2).to_bits(), -0x200);
    // 200 << 8 does not fit in an i16 and wraps.
    assert_eq!(i16fx8::wrapping_from(200).to_bits(), -14336);
    assert_eq!(Fixed::<u8, 4>::wrapping_from(0x1F).to_bits(), 0xF0);
    assert_eq!(i16fx14::wrapping_from(1).to_bits(), 0x4000);
}

#[test]
fn fixed_bits_round_trip() {
    assert_eq!(i32fx8::from_bits(-12345).to_bits(), -12345);
    assert_eq!(Fixed::<u32, 3>::from_bits(77).to_bits(), 77);
}

#[test]
fn fixed_add_sub() {
    let a = i16fx8::from_bits(0x180);
    let b = i16fx8::from_bits(0x080);
    assert_eq!(a.add(b).to_bits(), 0x200);
    assert_eq!(a.sub(b).to_bits(), 0x100);
    assert_eq!((a + b).to_bits(), 0x200);
    assert_eq!((b - a).to_bits(), -0x100);
    let c = Fixed::<u16, 8>::from_bits(0x0100);
    assert_eq!((c + c).to_bits(), 0x0200);
}

#[test]
fn fixed_signed_mul() {
    let one_half = i16fx8::from_bits(0x180);
    let two = i16fx8::from_bits(0x200);
    assert_eq!((one_half * two).to_bits(), 0x300);
    assert_eq!((-one_half * two).to_bits(), -0x300);
    // The shift rounds toward negative infinity.
    assert_eq!((i16fx8::from_bits(-1) * i16fx8::from_bits(1)).to_bits(), -1);
    assert_eq!((i16fx8::from_bits(1) * i16fx8::from_bits(1)).to_bits(), 0);
    assert_eq!(
        (i32fx8::from_bits(0x10000) * i32fx8::from_bits(0x200)).to_bits(),
        0x20000
    );
    // The product is cut to the base type.
    assert_eq!(
        (Fixed::<i8, 1>::from_bits(100) * Fixed::<i8, 1>::from_bits(100)).to_bits(),
        (5000i32 as i8)
    );
}

#[test]
fn fixed_signed_div() {
    let three = i16fx8::from_bits(0x300);
    let two = i16fx8::from_bits(0x200);
    assert_eq!((three / two).to_bits(), 0x180);
    assert_eq!((-three / two).to_bits(), -0x180);
    assert_eq!((three / -two).to_bits(), -0x180);
    // Division rounds toward zero.
    assert_eq!((i16fx8::from_bits(-1) / i16fx8::from_bits(0x200)).to_bits(), 0);
    assert_eq!((i16fx8::from_bits(1) / i16fx8::from_bits(0x200)).to_bits(), 0);
    assert_eq!((i32fx8::from_bits(0x1000) / i32fx8::from_bits(0x100)).to_bits(), 0x1000);
}

#[test]
fn fixed_rem() {
    assert_eq!((i16fx8::from_bits(7) % i16fx8::from_bits(3)).to_bits(), 1);
    assert_eq!((i16fx8::from_bits(-7) % i16fx8::from_bits(3)).to_bits(), -1);
    assert_eq!((i16fx8::from_bits(7) % i16fx8::from_bits(-3)).to_bits(), 1);
    assert_eq!((i16fx8::from_bits(-7) % i16fx8::from_bits(-3)).to_bits(), -1);
    assert_eq!((Fixed::<u16, 4>::from_bits(17) % Fixed::<u16, 4>::from_bits(5)).to_bits(), 2);
}

#[test]
fn fixed_neg_and_sign() {
    let x = i16fx8::from_bits(0x180);
    assert_eq!(x.neg().to_bits(), -0x180);
    assert_eq!((-(-x)).to_bits(), 0x180);
    assert!(x.neg().is_negative());
    assert!(!x.is_negative());
    assert!(!i16fx8::from_bits(0).is_negative());
}

#[test]
fn fixed_fract_trunc_signed() {
    let x = i16fx8::from_bits(0x1234);
    assert_eq!(x.fract().to_bits(), 0x34);
    assert_eq!(x.trunc().to_bits(), 0x1200);
    // Both work on the magnitude: the results are not negative.
    let y = i16fx8::from_bits(-0x180);
    assert_eq!(y.fract().to_bits(), 0x80);
    assert_eq!(y.trunc().to_bits(), 0x100);
    assert_eq!(i32fx8::from_bits(-0x12345).trunc().to_bits(), 0x12300);
}

#[test]
fn fixed_unsigned_ops() {
    let a = Fixed::<u16, 8>::from_bits(0x180);
    let b = Fixed::<u16, 8>::from_bits(0x200);
    assert_eq!((a * b).to_bits(), 0x300);
    assert_eq!((Fixed::<u16, 8>::from_bits(0x300) / b).to_bits(), 0x180);
    assert_eq!(Fixed::<u16, 8>::from_bits(0x1234).fract().to_bits(), 0x34);
    assert_eq!(Fixed::<u16, 8>::from_bits(0x1234).trunc().to_bits(), 0x1200);
    // The product is cut to the base type.
    assert_eq!((Fixed::<u8, 4>::from_bits(0xFF) * Fixed::<u8, 4>::from_bits(0xFF)).to_bits(), 0xE0);
    assert_eq!((Fixed::<u32, 8>::from_bits(0x1000) / Fixed::<u32, 8>::from_bits(0x300)).to_bits(), 0x555);
}

#[test]
fn fixed_bit_ops() {
    let a = i16fx8::from_bits(0x0F0F);
    let b = i16fx8::from_bits(0x00FF);
    assert_eq!((a & b).to_bits(), 0x000F);
    assert_eq!((a | b).to_bits(), 0x0FFF);
    assert_eq!((a ^ b).to_bits(), 0x0FF0);
    assert_eq!((!i16fx8::from_bits(0)).to_bits(), -1);
    assert_eq!((i16fx8::from_bits(1) << 4).to_bits(), 0x10);
    // Shifting right keeps the sign.
    assert_eq!((i16fx8::from_bits(-0x100) >> 4).to_bits(), -0x10);
    assert_eq!((Fixed::<u16, 8>::from_bits(0x8000) >> 15).to_bits(), 1);
    let mut c = a;
    c &= b;
    assert_eq!(c.to_bits(), 0x000F);
    c |= i16fx8::from_bits(0x0100);
    assert_eq!(c.to_bits(), 0x010F);
    c ^= i16fx8::from_bits(0x010F);
    assert_eq!(c.to_bits(), 0);
    assert_eq!(a.bitand(b).to_bits(), 0x000F);
    assert_eq!(a.shl(1).to_bits(), 0x1E1E);
    assert_eq!(a.not().to_bits(), !0x0F0Fi16);
}
