//! Hardware interrupt flags.
use vstd::prelude::*;
use crate::bits::{bit16, set_bit16, group_bits};
use crate::bitfrob_calls::{u16_get_bit, u16_with_bit};

verus! {

broadcast use group_bits;

/// Interrupt bit flags.
#[derive(Clone, Copy, Default)]
pub struct IrqBits(pub u16);

impl IrqBits {
    /// Whether the interrupt flag at bit `b` is set.
    pub open spec fn flag(self, b: u16) -> bool {
        bit16(self.0, b)
    }

    /// Makes a new, empty value.
    pub fn new() -> (r: Self)
        ensures
            r.0 == 0,
    {
        IrqBits(0)
    }

    /// Vertical-blank
    pub fn vblank(self) -> (r: bool)
        ensures
            r == self.flag(0),
    {
        u16_get_bit(0, self.0)
    }

    /// Horizontal-blank
    pub fn hblank(self) -> (r: bool)
        ensures
            r == self.flag(1),
    {
        u16_get_bit(1, self.0)
    }

    /// Vertical-counter match
    pub fn vcount(self) -> (r: bool)
        ensures
            r == self.flag(2),
    {
        u16_get_bit(2, self.0)
    }

    /// Timer 0 overflow
    pub fn timer0(self) -> (r: bool)
        ensures
            r == self.flag(3),
    {
        u16_get_bit(3, self.0)
    }

    /// Timer 1 overflow
    pub fn timer1(self) -> (r: bool)
        ensures
            r == self.flag(4),
    {
        u16_get_bit(4, self.0)
    }

    /// Timer 2 overflow
    pub fn timer2(self) -> (r: bool)
        ensures
            r == self.flag(5),
    {
        u16_get_bit(5, self.0)
    }

    /// Timer 3 overflow
    pub fn timer3(self) -> (r: bool)
        ensures
            r == self.flag(6),
    {
        u16_get_bit(6, self.0)
    }

    /// Serial port communication
    pub fn serial(self) -> (r: bool)
        ensures
            r == self.flag(7),
    {
        u16_get_bit(7, self.0)
    }

    /// DMA 0 complete
    pub fn dma0(self) -> (r: bool)
        ensures
            r == self.flag(8),
    {
        u16_get_bit(8, self.0)
    }

    /// DMA 1 complete
    pub fn dma1(self) -> (r: bool)
        ensures
            r == self.flag(9),
    {
        u16_get_bit(9, self.0)
    }

    /// DMA 2 complete
    pub fn dma2(self) -> (r: bool)
        ensures
            r == self.flag(10),
    {
        u16_get_bit(10, self.0)
    }

    /// DMA 3 complete
    pub fn dma3(self) -> (r: bool)
        ensures
            r == self.flag(11),
    {
        u16_get_bit(11, self.0)
    }

    /// Keypad match
    pub fn keypad(self) -> (r: bool)
        ensures
            r == self.flag(12),
    {
        u16_get_bit(12, self.0)
    }

    /// Game pak
    pub fn gamepak(self) -> (r: bool)
        ensures
            r == self.flag(13),
    {
        u16_get_bit(13, self.0)
    }

    /// Set the vblank bit.
    pub fn with_vblank(self, vblank: bool) -> (r: Self)
        ensures
            r.0 == set_bit16(self.0, 0, vblank),
            r.flag(0) == vblank,
            forall|c: u16| c < 16 && c != 0 ==> r.flag(c) == self.flag(c),
    {
        IrqBits(u16_with_bit(0, self.0, vblank))
    }

    /// Set the hblank bit.
    pub fn with_hblank(self, hblank: bool) -> (r: Self)
        ensures
            r.0 == set_bit16(self.0, 1, hblank),
            r.flag(1) == hblank,
            forall|c: u16| c < 16 && c != 1 ==> r.flag(c) == self.flag(c),
    {
        IrqBits(u16_with_bit(1, self.0, hblank))
    }

    /// Set the vcount bit.
    pub fn with_vcount(self, vcount: bool) -> (r: Self)
        ensures
            r.0 == set_bit16(self.0, 2, vcount),
            r.flag(2) == vcount,
            forall|c: u16| c < 16 && c != 2 ==> r.flag(c) == self.flag(c),
    {
        IrqBits(u16_with_bit(2, self.0, vcount))
    }

    /// Set the timer0 bit.
    pub fn with_timer0(self, timer0: bool) -> (r: Self)
        ensures
            r.0 == set_bit16(self.0, 3, timer0),
            r.flag(3) == timer0,
            forall|c: u16| c < 16 && c != 3 ==> r.flag(c) == self.flag(c),
    {
        IrqBits(u16_with_bit(3, self.0, timer0))
    }

    /// Set the timer1 bit.
    pub fn with_timer1(self, timer1: bool) -> (r: Self)
        ensures
            r.0 == set_bit16(self.0, 4, timer1),
            r.flag(4) == timer1,
            forall|c: u16| c < 16 && c != 4 ==> r.flag(c) == self.flag(c),
    {
        IrqBits(u16_with_bit(4, self.0, timer1))
    }

    /// Set the timer2 bit.
    pub fn with_timer2(self, timer2: bool) -> (r: Self)
        ensures
            r.0 == set_bit16(self.0, 5, timer2),
            r.flag(5) == timer2,
            forall|c: u16| c < 16 && c != 5 ==> r.flag(c) == self.flag(c),
    {
        IrqBits(u16_with_bit(5, self.0, timer2))
    }

    /// Set the timer3 bit.
    pub fn with_timer3(self, timer3: bool) -> (r: Self)
        ensures
            r.0 == set_bit16(self.0, 6, timer3),
            r.flag(6) == timer3,
            forall|c: u16| c < 16 && c != 6 ==> r.flag(c) == self.flag(c),
    {
        IrqBits(u16_with_bit(6, self.0, timer3))
    }

    /// Set the serial bit.
    pub fn with_serial(self, serial: bool) -> (r: Self)
        ensures
            r.0 == set_bit16(self.0, 7, serial),
            r.flag(7) == serial,
            forall|c: u16| c < 16 && c != 7 ==> r.flag(c) == self.flag(c),
    {
        IrqBits(u16_with_bit(7, self.0, serial))
    }

    /// Set the dma0 bit.
    pub fn with_dma0(self, dma0: bool) -> (r: Self)
        ensures
            r.0 == set_bit16(self.0, 8, dma0),
            r.flag(8) == dma0,
            forall|c: u16| c < 16 && c != 8 ==> r.flag(c) == self.flag(c),
    {
        IrqBits(u16_with_bit(8, self.0, dma0))
    }

    /// Set the dma1 bit.
    pub fn with_dma1(self, dma1: bool) -> (r: Self)
        ensures
            r.0 == set_bit16(self.0, 9, dma1),
            r.flag(9) == dma1,
            forall|c: u16| c < 16 && c != 9 ==> r.flag(c) == self.flag(c),
    {
        IrqBits(u16_with_bit(9, self.0, dma1))
    }

    /// Set the dma2 bit.
    pub fn with_dma2(self, dma2: bool) -> (r: Self)
        ensures
            r.0 == set_bit16(self.0, 10, dma2),
            r.flag(10) == dma2,
            forall|c: u16| c < 16 && c != 10 ==> r.flag(c) == self.flag(c),
    {
        IrqBits(u16_with_bit(10, self.0, dma2))
    }

    /// Set the dma3 bit.
    pub fn with_dma3(self, dma3: bool) -> (r: Self)
        ensures
            r.0 == set_bit16(self.0, 11, dma3),
            r.flag(11) == dma3,
            forall|c: u16| c < 16 && c != 11 ==> r.flag(c) == self.flag(c),
    {
        IrqBits(u16_with_bit(11, self.0, dma3))
    }

    /// Set the keypad bit.
    pub fn with_keypad(self, keypad: bool) -> (r: Self)
        ensures
            r.0 == set_bit16(self.0, 12, keypad),
            r.flag(12) == keypad,
            forall|c: u16| c < 16 && c != 12 ==> r.flag(c) == self.flag(c),
    {
        IrqBits(u16_with_bit(12, self.0, keypad))
    }

    /// Set the gamepak bit.
    pub fn with_gamepak(self, gamepak: bool) -> (r: Self)
        ensures
            r.0 == set_bit16(self.0, 13, gamepak),
            r.flag(13) == gamepak,
            forall|c: u16| c < 16 && c != 13 ==> r.flag(c) == self.flag(c),
    {
        IrqBits(u16_with_bit(13, self.0, gamepak))
    }
}

} // verus!
