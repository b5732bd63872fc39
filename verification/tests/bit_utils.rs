use gba::bit_utils::{
    u16_get_bit, u16_get_region, u16_get_value, u16_with_bit, u16_with_region, u16_with_value,
};

#[test]
fn bit_utils_get_bit() {
    assert!(u16_get_bit::<3>(0b1000));
    assert!(!u16_get_bit::<2>(0b1000));
    assert!(u16_get_bit::<15>(0x8000));
    assert!(!u16_get_bit::<0>(0xFFFE));
}

#[test]
fn bit_utils_with_bit() {
    assert_eq!(u16_with_bit::<15>(0, true), 0x8000);
    assert_eq!(u16_with_bit::<0>(0xFFFF, false), 0xFFFE);
    assert_eq!(u16_with_bit::<4>(0x0010, true), 0x0010);
    assert_eq!(u16_with_bit::<4>(0x0010, false), 0x0000);
}

#[test]
fn bit_utils_get_region() {
    assert_eq!(u16_get_region::<4, 7>(0xABCD), 0x00C0);
    assert_eq!(u16_get_region::<0, 15>(0xABCD), 0xABCD);
    assert_eq!(u16_get_region::<14, 15>(0x4000), 0x4000);
}

#[test]
fn bit_utils_with_region() {
    assert_eq!(u16_with_region::<4, 7>(0xABCD, 0x0050), 0xAB5D);
    // Bits of the new value outside the region are dropped.
    assert_eq!(u16_with_region::<4, 7>(0, 0x1000), 0x0000);
    assert_eq!(u16_with_region::<4, 7>(0, 0xFFFF), 0x00F0);
    assert_eq!(u16_with_region::<4, 7>(0xFFFF, 0x0000), 0xFF0F);
    assert_eq!(u16_with_region::<0, 15>(0x1234, 0x0F0F), 0x0F0F);
}

#[test]
fn bit_utils_get_value() {
    assert_eq!(u16_get_value::<4, 7>(0xABCD), 0xC);
    assert_eq!(u16_get_value::<12, 15>(0xABCD), 0xA);
}

#[test]
fn bit_utils_with_value() {
    assert_eq!(u16_with_value::<4, 7>(0xABCD, 0x5), 0xAB5D);
    assert_eq!(u16_with_value::<8, 11>(0, 0x3), 0x0300);
    // A value wider than the region keeps only its low bits.
    assert_eq!(u16_with_value::<8, 11>(0, 0x13), 0x0300);
}

#[test]
fn bit_utils_value_round_trip() {
    for v in 0..16u16 {
        assert_eq!(u16_get_value::<4, 7>(u16_with_value::<4, 7>(0xFFFF, v)), v);
        assert_eq!(u16_get_value::<4, 7>(u16_with_value::<4, 7>(0x0000, v)), v);
    }
}
