use gba::fixed::i16fx8;
use gba::interrupts::{IrqBits, SramFirstAccess, WaitstateControl, Waitstate2FirstAccess};
use gba::key_input::Keys;

#[test]
fn bit_writes_commute() {
    let a = Keys::new().with_a(true).with_b(true);
    let b = Keys::new().with_b(true).with_a(true);
    assert_eq!(u16::from(a), u16::from(b));
}

#[test]
fn bit_write_twice_keeps_last() {
    let once = IrqBits::new().with_serial(false);
    let twice = IrqBits::new().with_serial(true).with_serial(false);
    assert_eq!(once.to_u16(), twice.to_u16());
}

#[test]
fn field_write_twice_keeps_last() {
    let w = WaitstateControl(0x1234)
        .with_ws2_first_access(Waitstate2FirstAccess::Cycles3)
        .with_ws2_first_access(Waitstate2FirstAccess::Cycles8);
    assert_eq!(w.0, WaitstateControl(0x1234).with_ws2_first_access(Waitstate2FirstAccess::Cycles8).0);
    assert_eq!(w.ws2_first_access(), Waitstate2FirstAccess::Cycles8);
}

#[test]
fn writing_back_a_field_changes_nothing() {
    let w = WaitstateControl(0xBEEF);
    assert_eq!(w.with_ws0_first_access(w.ws0_first_access()).0, 0xBEEF);
    let k = Keys::new().with_up(true);
    assert_eq!(u16::from(k.with_up(k.up())), u16::from(k));
}

#[test]
fn fixed_add_then_sub() {
    let x = i16fx8::from_bits(0x1234);
    let y = i16fx8::from_bits(-0x0FED);
    assert_eq!(((x + y) - y).to_bits(), 0x1234);
    assert_eq!((-(-y)).to_bits(), -0x0FED);
}

#[test]
fn field_read_ignores_other_bits() {
    assert_eq!(WaitstateControl(0xFF01).sram(), SramFirstAccess::Cycles3);
    assert_eq!(WaitstateControl(0xFFF2).sram(), SramFirstAccess::Cycles2);
    assert_eq!(WaitstateControl(0x00F0).sram(), SramFirstAccess::Cycles4);
}
