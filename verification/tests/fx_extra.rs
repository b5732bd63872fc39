use gba::fixed_point::Fx;

#[test]
fn fx_precision_and_raw() {
    assert_eq!(Fx::<u16, 4>::precision().into_raw(), 1);
    assert_eq!(Fx::<i32, 8>::precision().into_raw(), 1);
    assert_eq!(Fx::<u8, 2>::from_raw(7).into_raw(), 7);
    assert_eq!(Fx::<i16, 4>::from_int_part(-3).into_raw(), -48);
}

#[test]
fn fx_adjust_fractional_bits() {
    let x = Fx::<u16, 4>::from_int_part(3);
    assert_eq!(x.adjust_fractional_bits::<8>().into_raw(), 3 << 8);
    assert_eq!(x.adjust_fractional_bits::<2>().into_raw(), 3 << 2);
    assert_eq!(x.adjust_fractional_bits::<4>().into_raw(), 3 << 4);
    // Moving right drops the low bits.
    assert_eq!(Fx::<u16, 4>::from_raw(0b1011).adjust_fractional_bits::<2>().into_raw(), 0b10);
    // A negative value shifts arithmetically.
    assert_eq!(Fx::<i16, 4>::from_raw(-16).adjust_fractional_bits::<0>().into_raw(), -1);
}

#[test]
fn fx_cast_inner() {
    let x = Fx::<u16, 4>::from_raw(300);
    let y: Fx<u32, 4> = x.cast_inner(|v| v as u32 * 2);
    assert_eq!(y.into_raw(), 600);
}

#[test]
fn fx_signed_mul_rounds_toward_zero() {
    let a = Fx::<i16, 4>::from_raw(-1);
    let b = Fx::<i16, 4>::from_raw(1);
    assert_eq!((a * b).into_raw(), 0);
    let c = Fx::<i16, 4>::from_raw(-40);
    let d = Fx::<i16, 4>::from_raw(3);
    // -120 / 16 rounds toward zero to -7.
    assert_eq!((c * d).into_raw(), -7);
    assert_eq!((Fx::<i16, 4>::from_int_part(-2) * Fx::<i16, 4>::from_int_part(3)).into_raw(), -96);
}

#[test]
fn fx_signed_div() {
    let six = Fx::<i16, 4>::from_int_part(6);
    let two = Fx::<i16, 4>::from_int_part(2);
    let neg_two = Fx::<i16, 4>::from_int_part(-2);
    assert_eq!((six / two).into_raw(), 48);
    assert_eq!((six / neg_two).into_raw(), -48);
    // Rounds toward zero: (-1 * 16) / 32 is 0.
    assert_eq!((Fx::<i16, 4>::from_raw(-1) / two).into_raw(), 0);
    assert_eq!((Fx::<i32, 8>::from_int_part(1) / Fx::<i32, 8>::from_int_part(3)).into_raw(), 85);
}

#[test]
fn fx_unsigned_mul_wraps_in_u32() {
    let a = Fx::<u32, 4>::from_raw(0x10000);
    let b = Fx::<u32, 4>::from_raw(0x10000);
    // 0x1_0000_0000 wraps to 0 before the shift.
    assert_eq!((a * b).into_raw(), 0);
    assert_eq!((Fx::<u8, 2>::from_raw(10) * Fx::<u8, 2>::from_raw(10)).into_raw(), 25);
}

#[test]
fn fx_neg_signed() {
    assert_eq!((-Fx::<i32, 8>::from_raw(5)).into_raw(), -5);
    assert_eq!((-Fx::<i8, 2>::from_raw(-128 + 1)).into_raw(), 127);
}
