//! Interrupt request (IRQ) flags and the master enable setting.
//!
//! Installing the handler and acknowledging interrupts touch the hardware
//! and are left to the caller.
use vstd::prelude::*;
use crate::bits::bit16;
use crate::bits::set_bit16;

verus! {

/// A set of interrupt flags: which interrupts are enabled, or have fired.
#[derive(Debug, Copy, Clone, Default, PartialEq, Eq)]
pub struct IrqFlags(pub u16);

impl View for IrqFlags {
    type V = u16;

    /// The raw register bits.
    open spec fn view(&self) -> u16 {
        self.0
    }
}

impl IrqFlags {
    /// Makes a new, zeroed value.
    pub fn new() -> (r: Self)
        ensures
            r@ == 0,
    {
        IrqFlags(0)
    }

    /// The mask of bit 0.
    pub const VBLANK_BIT: u16 = 0x0001u16;

    /// Bit 0.
    pub fn vblank(self) -> (r: bool)
        ensures
            r == bit16(self@, 0),
    {
        (self.0 & (1u16 << 0u16)) != 0
    }

    /// Sets bit 0.
    pub fn with_vblank(self, bit: bool) -> (r: Self)
        ensures
            r@ == set_bit16(self@, 0, bit),
    {
        if bit {
            IrqFlags(self.0 | (1u16 << 0u16))
        } else {
            IrqFlags(self.0 & !(1u16 << 0u16))
        }
    }

    /// The mask of bit 1.
    pub const HBLANK_BIT: u16 = 0x0002u16;

    /// Bit 1.
    pub fn hblank(self) -> (r: bool)
        ensures
            r == bit16(self@, 1),
    {
        (self.0 & (1u16 << 1u16)) != 0
    }

    /// Sets bit 1.
    pub fn with_hblank(self, bit: bool) -> (r: Self)
        ensures
            r@ == set_bit16(self@, 1, bit),
    {
        if bit {
            IrqFlags(self.0 | (1u16 << 1u16))
        } else {
            IrqFlags(self.0 & !(1u16 << 1u16))
        }
    }

    /// The mask of bit 2.
    pub const VCOUNTER_BIT: u16 = 0x0004u16;

    /// Bit 2.
    pub fn vcounter(self) -> (r: bool)
        ensures
            r == bit16(self@, 2),
    {
        (self.0 & (1u16 << 2u16)) != 0
    }

    /// Sets bit 2.
    pub fn with_vcounter(self, bit: bool) -> (r: Self)
        ensures
            r@ == set_bit16(self@, 2, bit),
    {
        if bit {
            IrqFlags(self.0 | (1u16 << 2u16))
        } else {
            IrqFlags(self.0 & !(1u16 << 2u16))
        }
    }

    /// The mask of bit 3.
    pub const TIMER0_BIT: u16 = 0x0008u16;

    /// Bit 3.
    pub fn timer0(self) -> (r: bool)
        ensures
            r == bit16(self@, 3),
    {
        (self.0 & (1u16 << 3u16)) != 0
    }

    /// Sets bit 3.
    pub fn with_timer0(self, bit: bool) -> (r: Self)
        ensures
            r@ == set_bit16(self@, 3, bit),
    {
        if bit {
            IrqFlags(self.0 | (1u16 << 3u16))
        } else {
            IrqFlags(self.0 & !(1u16 << 3u16))
        }
    }

    /// The mask of bit 4.
    pub const TIMER1_BIT: u16 = 0x0010u16;

    /// Bit 4.
    pub fn timer1(self) -> (r: bool)
        ensures
            r == bit16(self@, 4),
    {
        (self.0 & (1u16 << 4u16)) != 0
    }

    /// Sets bit 4.
    pub fn with_timer1(self, bit: bool) -> (r: Self)
        ensures
            r@ == set_bit16(self@, 4, bit),
    {
        if bit {
            IrqFlags(self.0 | (1u16 << 4u16))
        } else {
            IrqFlags(self.0 & !(1u16 << 4u16))
        }
    }

    /// The mask of bit 5.
    pub const TIMER2_BIT: u16 = 0x0020u16;

    /// Bit 5.
    pub fn timer2(self) -> (r: bool)
        ensures
            r == bit16(self@, 5),
    {
        (self.0 & (1u16 << 5u16)) != 0
    }

    /// Sets bit 5.
    pub fn with_timer2(self, bit: bool) -> (r: Self)
        ensures
            r@ == set_bit16(self@, 5, bit),
    {
        if bit {
            IrqFlags(self.0 | (1u16 << 5u16))
        } else {
            IrqFlags(self.0 & !(1u16 << 5u16))
        }
    }

    /// The mask of bit 6.
    pub const TIMER3_BIT: u16 = 0x0040u16;

    /// Bit 6.
    pub fn timer3(self) -> (r: bool)
        ensures
            r == bit16(self@, 6),
    {
        (self.0 & (1u16 << 6u16)) != 0
    }

    /// Sets bit 6.
    pub fn with_timer3(self, bit: bool) -> (r: Self)
        ensures
            r@ == set_bit16(self@, 6, bit),
    {
        if bit {
            IrqFlags(self.0 | (1u16 << 6u16))
        } else {
            IrqFlags(self.0 & !(1u16 << 6u16))
        }
    }

    /// The mask of bit 7.
    pub const SERIAL_BIT: u16 = 0x0080u16;

    /// Bit 7.
    pub fn serial(self) -> (r: bool)
        ensures
            r == bit16(self@, 7),
    {
        (self.0 & (1u16 << 7u16)) != 0
    }

    /// Sets bit 7.
    pub fn with_serial(self, bit: bool) -> (r: Self)
        ensures
            r@ == set_bit16(self@, 7, bit),
    {
        if bit {
            IrqFlags(self.0 | (1u16 << 7u16))
        } else {
            IrqFlags(self.0 & !(1u16 << 7u16))
        }
    }

    /// The mask of bit 8.
    pub const DMA0_BIT: u16 = 0x0100u16;

    /// Bit 8.
    pub fn dma0(self) -> (r: bool)
        ensures
            r == bit16(self@, 8),
    {
        (self.0 & (1u16 << 8u16)) != 0
    }

    /// Sets bit 8.
    pub fn with_dma0(self, bit: bool) -> (r: Self)
        ensures
            r@ == set_bit16(self@, 8, bit),
    {
        if bit {
            IrqFlags(self.0 | (1u16 << 8u16))
        } else {
            IrqFlags(self.0 & !(1u16 << 8u16))
        }
    }

    /// The mask of bit 9.
    pub const DMA1_BIT: u16 = 0x0200u16;

    /// Bit 9.
    pub fn dma1(self) -> (r: bool)
        ensures
            r == bit16(self@, 9),
    {
        (self.0 & (1u16 << 9u16)) != 0
    }

    /// Sets bit 9.
    pub fn with_dma1(self, bit: bool) -> (r: Self)
        ensures
            r@ == set_bit16(self@, 9, bit),
    {
        if bit {
            IrqFlags(self.0 | (1u16 << 9u16))
        } else {
            IrqFlags(self.0 & !(1u16 << 9u16))
        }
    }

    /// The mask of bit 10.
    pub const DMA2_BIT: u16 = 0x0400u16;

    /// Bit 10.
    pub fn dma2(self) -> (r: bool)
        ensures
            r == bit16(self@, 10),
    {
        (self.0 & (1u16 << 10u16)) != 0
    }

    /// Sets bit 10.
    pub fn with_dma2(self, bit: bool) -> (r: Self)
        ensures
            r@ == set_bit16(self@, 10, bit),
    {
        if bit {
            IrqFlags(self.0 | (1u16 << 10u16))
        } else {
            IrqFlags(self.0 & !(1u16 << 10u16))
        }
    }

    /// The mask of bit 11.
    pub const DMA3_BIT: u16 = 0x0800u16;

    /// Bit 11.
    pub fn dma3(self) -> (r: bool)
        ensures
            r == bit16(self@, 11),
    {
        (self.0 & (1u16 << 11u16)) != 0
    }

    /// Sets bit 11.
    pub fn with_dma3(self, bit: bool) -> (r: Self)
        ensures
            r@ == set_bit16(self@, 11, bit),
    {
        if bit {
            IrqFlags(self.0 | (1u16 << 11u16))
        } else {
            IrqFlags(self.0 & !(1u16 << 11u16))
        }
    }

    /// The mask of bit 12.
    pub const KEYPAD_BIT: u16 = 0x1000u16;

    /// Bit 12.
    pub fn keypad(self) -> (r: bool)
        ensures
            r == bit16(self@, 12),
    {
        (self.0 & (1u16 << 12u16)) != 0
    }

    /// Sets bit 12.
    pub fn with_keypad(self, bit: bool) -> (r: Self)
        ensures
            r@ == set_bit16(self@, 12, bit),
    {
        if bit {
            IrqFlags(self.0 | (1u16 << 12u16))
        } else {
            IrqFlags(self.0 & !(1u16 << 12u16))
        }
    }

    /// The mask of bit 13.
    pub const GAME_PAK_BIT: u16 = 0x2000u16;

    /// Bit 13.
    pub fn game_pak(self) -> (r: bool)
        ensures
            r == bit16(self@, 13),
    {
        (self.0 & (1u16 << 13u16)) != 0
    }

    /// Sets bit 13.
    pub fn with_game_pak(self, bit: bool) -> (r: Self)
        ensures
            r@ == set_bit16(self@, 13, bit),
    {
        if bit {
            IrqFlags(self.0 | (1u16 << 13u16))
        } else {
            IrqFlags(self.0 & !(1u16 << 13u16))
        }
    }
}

/// Interrupts Enabled. Read/Write.
pub const IE: usize = 0x400_0200;

/// Interrupts Flagged: reading gives the pending interrupts, writing a 1
/// acknowledges one. Read/Write.
pub const IF: usize = 0x400_0202;

/// Interrupt Master Enable. Read/Write.
pub const IME: usize = 0x400_0208;

/// The interrupt flags that the BIOS interrupt wait calls look at.
pub const BIOS_IF: usize = 0x0300_7FF8;

/// Setting to control whether interrupts are enabled.
#[derive(Debug, Copy, Clone, Default, PartialEq, Eq)]
pub struct IrqEnableSetting(pub u16);

impl View for IrqEnableSetting {
    type V = u16;

    /// The raw register bits.
    open spec fn view(&self) -> u16 {
        self.0
    }
}

impl IrqEnableSetting {
    /// Makes a new, zeroed value.
    pub fn new() -> (r: Self)
        ensures
            r@ == 0,
    {
        IrqEnableSetting(0)
    }

    /// The mask of bit 0.
    pub const INTERRUPTS_ENABLED_BIT: u16 = 0x0001u16;

    /// Bit 0.
    pub fn interrupts_enabled(self) -> (r: bool)
        ensures
            r == bit16(self@, 0),
    {
        (self.0 & (1u16 << 0u16)) != 0
    }

    /// Sets bit 0.
    pub fn with_interrupts_enabled(self, bit: bool) -> (r: Self)
        ensures
            r@ == set_bit16(self@, 0, bit),
    {
        if bit {
            IrqEnableSetting(self.0 | (1u16 << 0u16))
        } else {
            IrqEnableSetting(self.0 & !(1u16 << 0u16))
        }
    }
}

} // verus!
