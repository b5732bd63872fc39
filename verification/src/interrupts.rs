//! Interrupt flags and the game pak wait state control.
use vstd::prelude::*;
use crate::bits::{bit16, set_bit16, field16, set_field16, group_bits, lemma_region2};
use crate::bitfrob_calls::{u16_get_bit, u16_with_bit, u16_get_region, u16_with_region};

verus! {

broadcast use group_bits;

/// Interrupt flags, one bit per interrupt source.
#[derive(Debug, Clone, Copy, Default, PartialEq, Eq, PartialOrd, Ord, Hash)]
pub struct IrqBits(u16);

impl View for IrqBits {
    type V = u16;

    /// The raw register bits.
    closed spec fn view(&self) -> u16 {
        self.0
    }
}

impl IrqBits {
    /// Makes a new, zeroed value.
    pub fn new() -> (r: Self)
        ensures
            r@ == 0,
    {
        IrqBits(0)
    }

    pub fn vblank(self) -> (r: bool)
        ensures
            r == bit16(self@, 0),
    {
        u16_get_bit(0, self.0)
    }

    pub fn with_vblank(self, b: bool) -> (r: Self)
        ensures
            r@ == set_bit16(self@, 0, b),
            bit16(r@, 0) == b,
    {
        IrqBits(u16_with_bit(0, self.0, b))
    }

    pub fn hblank(self) -> (r: bool)
        ensures
            r == bit16(self@, 1),
    {
        u16_get_bit(1, self.0)
    }

    pub fn with_hblank(self, b: bool) -> (r: Self)
        ensures
            r@ == set_bit16(self@, 1, b),
            bit16(r@, 1) == b,
    {
        IrqBits(u16_with_bit(1, self.0, b))
    }

    pub fn vcounter(self) -> (r: bool)
        ensures
            r == bit16(self@, 2),
    {
        u16_get_bit(2, self.0)
    }

    pub fn with_vcounter(self, b: bool) -> (r: Self)
        ensures
            r@ == set_bit16(self@, 2, b),
            bit16(r@, 2) == b,
    {
        IrqBits(u16_with_bit(2, self.0, b))
    }

    pub fn timer0(self) -> (r: bool)
        ensures
            r == bit16(self@, 3),
    {
        u16_get_bit(3, self.0)
    }

    pub fn with_timer0(self, b: bool) -> (r: Self)
        ensures
            r@ == set_bit16(self@, 3, b),
            bit16(r@, 3) == b,
    {
        IrqBits(u16_with_bit(3, self.0, b))
    }

    pub fn timer1(self) -> (r: bool)
        ensures
            r == bit16(self@, 4),
    {
        u16_get_bit(4, self.0)
    }

    pub fn with_timer1(self, b: bool) -> (r: Self)
        ensures
            r@ == set_bit16(self@, 4, b),
            bit16(r@, 4) == b,
    {
        IrqBits(u16_with_bit(4, self.0, b))
    }

    pub fn timer2(self) -> (r: bool)
        ensures
            r == bit16(self@, 5),
    {
        u16_get_bit(5, self.0)
    }

    pub fn with_timer2(self, b: bool) -> (r: Self)
        ensures
            r@ == set_bit16(self@, 5, b),
            bit16(r@, 5) == b,
    {
        IrqBits(u16_with_bit(5, self.0, b))
    }

    pub fn timer3(self) -> (r: bool)
        ensures
            r == bit16(self@, 6),
    {
        u16_get_bit(6, self.0)
    }

    pub fn with_timer3(self, b: bool) -> (r: Self)
        ensures
            r@ == set_bit16(self@, 6, b),
            bit16(r@, 6) == b,
    {
        IrqBits(u16_with_bit(6, self.0, b))
    }

    pub fn serial(self) -> (r: bool)
        ensures
            r == bit16(self@, 7),
    {
        u16_get_bit(7, self.0)
    }

    pub fn with_serial(self, b: bool) -> (r: Self)
        ensures
            r@ == set_bit16(self@, 7, b),
            bit16(r@, 7) == b,
    {
        IrqBits(u16_with_bit(7, self.0, b))
    }

    pub fn dma0(self) -> (r: bool)
        ensures
            r == bit16(self@, 8),
    {
        u16_get_bit(8, self.0)
    }

    pub fn with_dma0(self, b: bool) -> (r: Self)
        ensures
            r@ == set_bit16(self@, 8, b),
            bit16(r@, 8) == b,
    {
        IrqBits(u16_with_bit(8, self.0, b))
    }

    pub fn dma1(self) -> (r: bool)
        ensures
            r == bit16(self@, 9),
    {
        u16_get_bit(9, self.0)
    }

    pub fn with_dma1(self, b: bool) -> (r: Self)
        ensures
            r@ == set_bit16(self@, 9, b),
            bit16(r@, 9) == b,
    {
        IrqBits(u16_with_bit(9, self.0, b))
    }

    pub fn dma2(self) -> (r: bool)
        ensures
            r == bit16(self@, 10),
    {
        u16_get_bit(10, self.0)
    }

    pub fn with_dma2(self, b: bool) -> (r: Self)
        ensures
            r@ == set_bit16(self@, 10, b),
            bit16(r@, 10) == b,
    {
        IrqBits(u16_with_bit(10, self.0, b))
    }

    pub fn dma3(self) -> (r: bool)
        ensures
            r == bit16(self@, 11),
    {
        u16_get_bit(11, self.0)
    }

    pub fn with_dma3(self, b: bool) -> (r: Self)
        ensures
            r@ == set_bit16(self@, 11, b),
            bit16(r@, 11) == b,
    {
        IrqBits(u16_with_bit(11, self.0, b))
    }

    pub fn keypad(self) -> (r: bool)
        ensures
            r == bit16(self@, 12),
    {
        u16_get_bit(12, self.0)
    }

    pub fn with_keypad(self, b: bool) -> (r: Self)
        ensures
            r@ == set_bit16(self@, 12, b),
            bit16(r@, 12) == b,
    {
        IrqBits(u16_with_bit(12, self.0, b))
    }

    pub fn gamepak(self) -> (r: bool)
        ensures
            r == bit16(self@, 13),
    {
        u16_get_bit(13, self.0)
    }

    pub fn with_gamepak(self, b: bool) -> (r: Self)
        ensures
            r@ == set_bit16(self@, 13, b),
            bit16(r@, 13) == b,
    {
        IrqBits(u16_with_bit(13, self.0, b))
    }

    /// The raw bits.
    pub fn to_u16(self) -> (r: u16)
        ensures
            r == self@,
    {
        self.0
    }
}

/// The game pak wait state control setting.
#[derive(Debug, Clone, Copy, Default, PartialEq, Eq, PartialOrd, Ord, Hash)]
pub struct WaitstateControl(pub u16);

impl View for WaitstateControl {
    type V = u16;

    /// The raw register bits.
    open spec fn view(&self) -> u16 {
        self.0
    }
}

impl WaitstateControl {
    /// Makes a new, zeroed value.
    pub fn new() -> (r: Self)
        ensures
            r@ == 0,
    {
        WaitstateControl(0)
    }

    pub fn sram(self) -> (r: SramFirstAccess)
        ensures
            r.index() == field16(self@, 0, 1),
    {
        let v = u16_get_region(0, 1, self.0);
        proof {
            lemma_region2(self.0, 0);
        }
        if v == SramFirstAccess::Cycles4.to_u16() {
            SramFirstAccess::Cycles4
        } else if v == SramFirstAccess::Cycles3.to_u16() {
            SramFirstAccess::Cycles3
        } else if v == SramFirstAccess::Cycles2.to_u16() {
            SramFirstAccess::Cycles2
        } else {
            SramFirstAccess::Cycles8
        }
    }

    pub fn with_sram(self, v: SramFirstAccess) -> (r: Self)
        ensures
            r@ == set_field16(self@, 0, 1, v.index()),
    {
        WaitstateControl(u16_with_region(0, 1, self.0, v.to_u16()))
    }

    pub fn ws0_first_access(self) -> (r: Waitstate0FirstAccess)
        ensures
            r.index() == field16(self@, 2, 3),
    {
        let v = u16_get_region(2, 3, self.0);
        proof {
            lemma_region2(self.0, 2);
        }
        if v == Waitstate0FirstAccess::Cycles4.to_u16() {
            Waitstate0FirstAccess::Cycles4
        } else if v == Waitstate0FirstAccess::Cycles3.to_u16() {
            Waitstate0FirstAccess::Cycles3
        } else if v == Waitstate0FirstAccess::Cycles2.to_u16() {
            Waitstate0FirstAccess::Cycles2
        } else {
            Waitstate0FirstAccess::Cycles8
        }
    }

    pub fn with_ws0_first_access(self, v: Waitstate0FirstAccess) -> (r: Self)
        ensures
            r@ == set_field16(self@, 2, 3, v.index()),
    {
        WaitstateControl(u16_with_region(2, 3, self.0, v.to_u16()))
    }

    /// Second access of wait state 0: `true` is 2 cycles, `false` is 1.
    pub fn ws0_second_access(self) -> (r: bool)
        ensures
            r == bit16(self@, 4),
    {
        u16_get_bit(4, self.0)
    }

    /// Second access of wait state 0: `true` is 2 cycles, `false` is 1.
    pub fn with_ws0_second_access(self, b: bool) -> (r: Self)
        ensures
            r@ == set_bit16(self@, 4, b),
            bit16(r@, 4) == b,
    {
        WaitstateControl(u16_with_bit(4, self.0, b))
    }

    pub fn ws1_first_access(self) -> (r: Waitstate1FirstAccess)
        ensures
            r.index() == field16(self@, 5, 6),
    {
        let v = u16_get_region(5, 6, self.0);
        proof {
            lemma_region2(self.0, 5);
        }
        if v == Waitstate1FirstAccess::Cycles4.to_u16() {
            Waitstate1FirstAccess::Cycles4
        } else if v == Waitstate1FirstAccess::Cycles3.to_u16() {
            Waitstate1FirstAccess::Cycles3
        } else if v == Waitstate1FirstAccess::Cycles2.to_u16() {
            Waitstate1FirstAccess::Cycles2
        } else {
            Waitstate1FirstAccess::Cycles8
        }
    }

    pub fn with_ws1_first_access(self, v: Waitstate1FirstAccess) -> (r: Self)
        ensures
            r@ == set_field16(self@, 5, 6, v.index()),
    {
        WaitstateControl(u16_with_region(5, 6, self.0, v.to_u16()))
    }

    /// Second access of wait state 1: `true` is 4 cycles, `false` is 1.
    pub fn ws1_second_access(self) -> (r: bool)
        ensures
            r == bit16(self@, 7),
    {
        u16_get_bit(7, self.0)
    }

    /// Second access of wait state 1: `true` is 4 cycles, `false` is 1.
    pub fn with_ws1_second_access(self, b: bool) -> (r: Self)
        ensures
            r@ == set_bit16(self@, 7, b),
            bit16(r@, 7) == b,
    {
        WaitstateControl(u16_with_bit(7, self.0, b))
    }

    pub fn ws2_first_access(self) -> (r: Waitstate2FirstAccess)
        ensures
            r.index() == field16(self@, 8, 9),
    {
        let v = u16_get_region(8, 9, self.0);
        proof {
            lemma_region2(self.0, 8);
        }
        if v == Waitstate2FirstAccess::Cycles4.to_u16() {
            Waitstate2FirstAccess::Cycles4
        } else if v == Waitstate2FirstAccess::Cycles3.to_u16() {
            Waitstate2FirstAccess::Cycles3
        } else if v == Waitstate2FirstAccess::Cycles2.to_u16() {
            Waitstate2FirstAccess::Cycles2
        } else {
            Waitstate2FirstAccess::Cycles8
        }
    }

    pub fn with_ws2_first_access(self, v: Waitstate2FirstAccess) -> (r: Self)
        ensures
            r@ == set_field16(self@, 8, 9, v.index()),
    {
        WaitstateControl(u16_with_region(8, 9, self.0, v.to_u16()))
    }

    /// Second access of wait state 2: `true` is 8 cycles, `false` is 1.
    pub fn ws2_second_access(self) -> (r: bool)
        ensures
            r == bit16(self@, 10),
    {
        u16_get_bit(10, self.0)
    }

    /// Second access of wait state 2: `true` is 8 cycles, `false` is 1.
    pub fn with_ws2_second_access(self, b: bool) -> (r: Self)
        ensures
            r@ == set_bit16(self@, 10, b),
            bit16(r@, 10) == b,
    {
        WaitstateControl(u16_with_bit(10, self.0, b))
    }

    pub fn phi_terminal_output(self) -> (r: PhiTerminalOutput)
        ensures
            r.index() == field16(self@, 11, 12),
    {
        let v = u16_get_region(11, 12, self.0);
        proof {
            lemma_region2(self.0, 11);
        }
        if v == PhiTerminalOutput::Disabled.to_u16() {
            PhiTerminalOutput::Disabled
        } else if v == PhiTerminalOutput::Freq4MHz.to_u16() {
            PhiTerminalOutput::Freq4MHz
        } else if v == PhiTerminalOutput::Freq8MHz.to_u16() {
            PhiTerminalOutput::Freq8MHz
        } else {
            PhiTerminalOutput::Freq16MHz
        }
    }

    pub fn with_phi_terminal_output(self, v: PhiTerminalOutput) -> (r: Self)
        ensures
            r@ == set_field16(self@, 11, 12, v.index()),
    {
        WaitstateControl(u16_with_region(11, 12, self.0, v.to_u16()))
    }

    pub fn game_pak_prefetch_buffer(self) -> (r: bool)
        ensures
            r == bit16(self@, 14),
    {
        u16_get_bit(14, self.0)
    }

    pub fn with_game_pak_prefetch_buffer(self, b: bool) -> (r: Self)
        ensures
            r@ == set_bit16(self@, 14, b),
            bit16(r@, 14) == b,
    {
        WaitstateControl(u16_with_bit(14, self.0, b))
    }

    pub fn game_pak_is_cgb(self) -> (r: bool)
        ensures
            r == bit16(self@, 15),
    {
        u16_get_bit(15, self.0)
    }

    pub fn with_game_pak_is_cgb(self, b: bool) -> (r: Self)
        ensures
            r@ == set_bit16(self@, 15, b),
            bit16(r@, 15) == b,
    {
        WaitstateControl(u16_with_bit(15, self.0, b))
    }
}

/// SRAM first access wait cycles.
#[derive(Debug, Clone, Copy, PartialEq, Eq)]
pub enum SramFirstAccess {
    Cycles4,
    Cycles3,
    Cycles2,
    Cycles8,
}

impl SramFirstAccess {
    /// The variant's number within its field (before shifting into place).
    pub open spec fn index(self) -> u16 {
        match self {
            SramFirstAccess::Cycles4 => 0,
            SramFirstAccess::Cycles3 => 1,
            SramFirstAccess::Cycles2 => 2,
            SramFirstAccess::Cycles8 => 3,
        }
    }

    /// The bits this setting stands for in its register.
    pub open spec fn raw(self) -> u16 {
        (self.index() << 0u16) as u16
    }

    /// The bits this setting stands for in its register.
    pub fn to_u16(self) -> (r: u16)
        ensures
            r == self.raw(),
    {
        let i: u16 = match self {
            SramFirstAccess::Cycles4 => 0,
            SramFirstAccess::Cycles3 => 1,
            SramFirstAccess::Cycles2 => 2,
            SramFirstAccess::Cycles8 => 3,
        };
        i << 0u16
    }
}

/// Wait state 0 first access cycles.
#[derive(Debug, Clone, Copy, PartialEq, Eq)]
pub enum Waitstate0FirstAccess {
    Cycles4,
    Cycles3,
    Cycles2,
    Cycles8,
}

impl Waitstate0FirstAccess {
    /// The variant's number within its field (before shifting into place).
    pub open spec fn index(self) -> u16 {
        match self {
            Waitstate0FirstAccess::Cycles4 => 0,
            Waitstate0FirstAccess::Cycles3 => 1,
            Waitstate0FirstAccess::Cycles2 => 2,
            Waitstate0FirstAccess::Cycles8 => 3,
        }
    }

    /// The bits this setting stands for in its register.
    pub open spec fn raw(self) -> u16 {
        (self.index() << 2u16) as u16
    }

    /// The bits this setting stands for in its register.
    pub fn to_u16(self) -> (r: u16)
        ensures
            r == self.raw(),
    {
        let i: u16 = match self {
            Waitstate0FirstAccess::Cycles4 => 0,
            Waitstate0FirstAccess::Cycles3 => 1,
            Waitstate0FirstAccess::Cycles2 => 2,
            Waitstate0FirstAccess::Cycles8 => 3,
        };
        i << 2u16
    }
}

/// Wait state 1 first access cycles.
#[derive(Debug, Clone, Copy, PartialEq, Eq)]
pub enum Waitstate1FirstAccess {
    Cycles4,
    Cycles3,
    Cycles2,
    Cycles8,
}

impl Waitstate1FirstAccess {
    /// The variant's number within its field (before shifting into place).
    pub open spec fn index(self) -> u16 {
        match self {
            Waitstate1FirstAccess::Cycles4 => 0,
            Waitstate1FirstAccess::Cycles3 => 1,
            Waitstate1FirstAccess::Cycles2 => 2,
            Waitstate1FirstAccess::Cycles8 => 3,
        }
    }

    /// The bits this setting stands for in its register.
    pub open spec fn raw(self) -> u16 {
        (self.index() << 5u16) as u16
    }

    /// The bits this setting stands for in its register.
    pub fn to_u16(self) -> (r: u16)
        ensures
            r == self.raw(),
    {
        let i: u16 = match self {
            Waitstate1FirstAccess::Cycles4 => 0,
            Waitstate1FirstAccess::Cycles3 => 1,
            Waitstate1FirstAccess::Cycles2 => 2,
            Waitstate1FirstAccess::Cycles8 => 3,
        };
        i << 5u16
    }
}

/// Wait state 2 first access cycles.
#[derive(Debug, Clone, Copy, PartialEq, Eq)]
pub enum Waitstate2FirstAccess {
    Cycles4,
    Cycles3,
    Cycles2,
    Cycles8,
}

impl Waitstate2FirstAccess {
    /// The variant's number within its field (before shifting into place).
    pub open spec fn index(self) -> u16 {
        match self {
            Waitstate2FirstAccess::Cycles4 => 0,
            Waitstate2FirstAccess::Cycles3 => 1,
            Waitstate2FirstAccess::Cycles2 => 2,
            Waitstate2FirstAccess::Cycles8 => 3,
        }
    }

    /// The bits this setting stands for in its register.
    pub open spec fn raw(self) -> u16 {
        (self.index() << 8u16) as u16
    }

    /// The bits this setting stands for in its register.
    pub fn to_u16(self) -> (r: u16)
        ensures
            r == self.raw(),
    {
        let i: u16 = match self {
            Waitstate2FirstAccess::Cycles4 => 0,
            Waitstate2FirstAccess::Cycles3 => 1,
            Waitstate2FirstAccess::Cycles2 => 2,
            Waitstate2FirstAccess::Cycles8 => 3,
        };
        i << 8u16
    }
}

/// The PHI terminal output frequency.
#[derive(Debug, Clone, Copy, PartialEq, Eq)]
pub enum PhiTerminalOutput {
    Disabled,
    Freq4MHz,
    Freq8MHz,
    Freq16MHz,
}

impl PhiTerminalOutput {
    /// The variant's number within its field (before shifting into place).
    pub open spec fn index(self) -> u16 {
        match self {
            PhiTerminalOutput::Disabled => 0,
            PhiTerminalOutput::Freq4MHz => 1,
            PhiTerminalOutput::Freq8MHz => 2,
            PhiTerminalOutput::Freq16MHz => 3,
        }
    }

    /// The bits this setting stands for in its register.
    pub open spec fn raw(self) -> u16 {
        (self.index() << 11u16) as u16
    }

    /// The bits this setting stands for in its register.
    pub fn to_u16(self) -> (r: u16)
        ensures
            r == self.raw(),
    {
        let i: u16 = match self {
            PhiTerminalOutput::Disabled => 0,
            PhiTerminalOutput::Freq4MHz => 1,
            PhiTerminalOutput::Freq8MHz => 2,
            PhiTerminalOutput::Freq16MHz => 3,
        };
        i << 11u16
    }
}



/// Every [`SramFirstAccess`] is written as its hardware code, its number within its register field:
/// `Cycles4` 0, `Cycles3` 1, `Cycles2` 2, `Cycles8` 3; distinct settings have
/// distinct codes, so a code read back names the setting that was written.
pub proof fn lemma_sram_first_access_codes(a: SramFirstAccess, b: SramFirstAccess)
    ensures
        a.index() == (match a {
            SramFirstAccess::Cycles4 => 0u16,
            SramFirstAccess::Cycles3 => 1u16,
            SramFirstAccess::Cycles2 => 2u16,
            SramFirstAccess::Cycles8 => 3u16,
        }),
        a.index() == b.index() ==> a == b,
{
}

/// Every [`Waitstate0FirstAccess`] is written as its hardware code, its number within its register field:
/// `Cycles4` 0, `Cycles3` 1, `Cycles2` 2, `Cycles8` 3; distinct settings have
/// distinct codes, so a code read back names the setting that was written.
pub proof fn lemma_waitstate0_first_access_codes(a: Waitstate0FirstAccess, b: Waitstate0FirstAccess)
    ensures
        a.index() == (match a {
            Waitstate0FirstAccess::Cycles4 => 0u16,
            Waitstate0FirstAccess::Cycles3 => 1u16,
            Waitstate0FirstAccess::Cycles2 => 2u16,
            Waitstate0FirstAccess::Cycles8 => 3u16,
        }),
        a.index() == b.index() ==> a == b,
{
}

/// Every [`Waitstate1FirstAccess`] is written as its hardware code, its number within its register field:
/// `Cycles4` 0, `Cycles3` 1, `Cycles2` 2, `Cycles8` 3; distinct settings have
/// distinct codes, so a code read back names the setting that was written.
pub proof fn lemma_waitstate1_first_access_codes(a: Waitstate1FirstAccess, b: Waitstate1FirstAccess)
    ensures
        a.index() == (match a {
            Waitstate1FirstAccess::Cycles4 => 0u16,
            Waitstate1FirstAccess::Cycles3 => 1u16,
            Waitstate1FirstAccess::Cycles2 => 2u16,
            Waitstate1FirstAccess::Cycles8 => 3u16,
        }),
        a.index() == b.index() ==> a == b,
{
}

/// Every [`Waitstate2FirstAccess`] is written as its hardware code, its number within its register field:
/// `Cycles4` 0, `Cycles3` 1, `Cycles2` 2, `Cycles8` 3; distinct settings have
/// distinct codes, so a code read back names the setting that was written.
pub proof fn lemma_waitstate2_first_access_codes(a: Waitstate2FirstAccess, b: Waitstate2FirstAccess)
    ensures
        a.index() == (match a {
            Waitstate2FirstAccess::Cycles4 => 0u16,
            Waitstate2FirstAccess::Cycles3 => 1u16,
            Waitstate2FirstAccess::Cycles2 => 2u16,
            Waitstate2FirstAccess::Cycles8 => 3u16,
        }),
        a.index() == b.index() ==> a == b,
{
}

/// Every [`PhiTerminalOutput`] is written as its hardware code, its number within its register field:
/// `Disabled` 0, `Freq4MHz` 1, `Freq8MHz` 2, `Freq16MHz` 3; distinct settings have
/// distinct codes, so a code read back names the setting that was written.
pub proof fn lemma_phi_terminal_output_codes(a: PhiTerminalOutput, b: PhiTerminalOutput)
    ensures
        a.index() == (match a {
            PhiTerminalOutput::Disabled => 0u16,
            PhiTerminalOutput::Freq4MHz => 1u16,
            PhiTerminalOutput::Freq8MHz => 2u16,
            PhiTerminalOutput::Freq16MHz => 3u16,
        }),
        a.index() == b.index() ==> a == b,
{
}

} // verus!
