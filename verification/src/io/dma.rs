//! Module for configuring the four Direct Memory Access (DMA) units.
//!
//! Each DMA is set up through a source address, a destination address, a
//! word count, and a control value ([`DMAControlSetting`]).
use vstd::prelude::*;
use crate::bits::{bit16, set_bit16, group_bits};
use crate::bitfrob_calls::{u16_get_bit, u16_with_bit};

verus! {

broadcast use group_bits;

/// Sets how the destination address should be adjusted per data transfer.
#[derive(Debug, Clone, Copy, PartialEq, Eq)]
pub enum DMADestAddressControl {
    /// Offset +1
    Increment,
    /// Offset -1
    Decrement,
    /// No change
    Fixed,
    /// Offset +1 per transfer and auto-reset to base when the DMA repeats.
    IncrementReload,
}

impl DMADestAddressControl {
    /// The setting's number.
    pub open spec fn raw(self) -> u16 {
        match self {
            DMADestAddressControl::Increment => 0,
            DMADestAddressControl::Decrement => 1,
            DMADestAddressControl::Fixed => 2,
            DMADestAddressControl::IncrementReload => 3,
        }
    }

    /// The setting's number.
    pub fn to_u16(self) -> (r: u16)
        ensures
            r == self.raw(),
    {
        match self {
            DMADestAddressControl::Increment => 0,
            DMADestAddressControl::Decrement => 1,
            DMADestAddressControl::Fixed => 2,
            DMADestAddressControl::IncrementReload => 3,
        }
    }
}

/// Sets how the source address should be adjusted per data transfer.
///
/// Note that only 0,1,2 are allowed, 3 is prohibited.
#[derive(Debug, Clone, Copy, PartialEq, Eq)]
pub enum DMASrcAddressControl {
    /// Offset +1
    Increment,
    /// Offset -1
    Decrement,
    /// No change
    Fixed,
}

impl DMASrcAddressControl {
    /// The setting's number.
    pub open spec fn raw(self) -> u16 {
        match self {
            DMASrcAddressControl::Increment => 0,
            DMASrcAddressControl::Decrement => 1,
            DMASrcAddressControl::Fixed => 2,
        }
    }

    /// The setting's number.
    pub fn to_u16(self) -> (r: u16)
        ensures
            r == self.raw(),
    {
        match self {
            DMASrcAddressControl::Increment => 0,
            DMASrcAddressControl::Decrement => 1,
            DMASrcAddressControl::Fixed => 2,
        }
    }
}

/// Sets when the DMA should activate.
#[derive(Debug, Clone, Copy, PartialEq, Eq)]
pub enum DMAStartTiming {
    /// Causes the DMA to start as soon as possible (2 wait cycles after enabled)
    Immediate,
    /// Start at VBlank
    VBlank,
    /// Start at HBlank
    HBlank,
    /// The special timing depends on the DMA it's used with:
    /// * 0: Prohibited
    /// * 1/2: Sound FIFO,
    /// * 3: Video Capture, for transferring from memory/camera into VRAM
    Special,
}

impl DMAStartTiming {
    /// The setting's number.
    pub open spec fn raw(self) -> u16 {
        match self {
            DMAStartTiming::Immediate => 0,
            DMAStartTiming::VBlank => 1,
            DMAStartTiming::HBlank => 2,
            DMAStartTiming::Special => 3,
        }
    }

    /// The setting's number.
    pub fn to_u16(self) -> (r: u16)
        ensures
            r == self.raw(),
    {
        match self {
            DMAStartTiming::Immediate => 0,
            DMAStartTiming::VBlank => 1,
            DMAStartTiming::HBlank => 2,
            DMAStartTiming::Special => 3,
        }
    }
}

/// The mask of the destination address control bits.
pub const DEST_ADDR_CONTROL_MASK: u16 = 0b11 << 5;

/// The mask of the source address control bits.
pub const SRC_ADDR_CONTROL_MASK: u16 = 0b11 << 7;

/// The mask of the start timing bits.
pub const START_TIMING_MASK: u16 = 0b11 << 12;

/// Allows you to configure a DMA unit.
#[derive(Debug, Copy, Clone, Default, PartialEq, Eq)]
pub struct DMAControlSetting(pub u16);

impl View for DMAControlSetting {
    type V = u16;

    /// The raw register bits.
    open spec fn view(&self) -> u16 {
        self.0
    }
}

impl DMAControlSetting {
    /// Makes a new, zeroed value.
    pub fn new() -> (r: Self)
        ensures
            r@ == 0,
    {
        DMAControlSetting(0)
    }

    /// Sets the destination address control (bits 5-6).
    pub fn with_dest_address_control(self, new_control: DMADestAddressControl) -> (r: Self)
        ensures
            r@ == (self@ & !DEST_ADDR_CONTROL_MASK) | ((new_control.raw() << 5u16) as u16),
    {
        Self((self.0 & !DEST_ADDR_CONTROL_MASK) | (new_control.to_u16() << 5))
    }

    /// Reads the destination address control.
    ///
    /// The masked bits are matched as they stand, without shifting them down,
    /// so only a value whose bits 5-6 are clear can be read: any other value
    /// names no setting here.
    pub fn dest_address_control(self) -> (r: DMADestAddressControl)
        requires
            self@ & DEST_ADDR_CONTROL_MASK < 4,
        ensures
            r.raw() == self@ & DEST_ADDR_CONTROL_MASK,
            r == DMADestAddressControl::Increment,
    {
        let v = self.0 & DEST_ADDR_CONTROL_MASK;
        proof {
            lemma_dest_mask_values(self.0);
        }
        if v == 0 {
            DMADestAddressControl::Increment
        } else if v == 1 {
            DMADestAddressControl::Decrement
        } else if v == 2 {
            DMADestAddressControl::Fixed
        } else {
            DMADestAddressControl::IncrementReload
        }
    }

    /// Reads the source address control.
    ///
    /// The masked bits are matched as they stand, without shifting them down,
    /// so only a value whose bits 7-8 are clear can be read: any other value
    /// names no setting here.
    pub fn src_address_control(self) -> (r: DMASrcAddressControl)
        requires
            self@ & SRC_ADDR_CONTROL_MASK < 3,
        ensures
            r.raw() == self@ & SRC_ADDR_CONTROL_MASK,
            r == DMASrcAddressControl::Increment,
    {
        let v = self.0 & SRC_ADDR_CONTROL_MASK;
        proof {
            lemma_src_mask_values(self.0);
        }
        if v == 0 {
            DMASrcAddressControl::Increment
        } else if v == 1 {
            DMASrcAddressControl::Decrement
        } else {
            DMASrcAddressControl::Fixed
        }
    }

    /// Sets the source address control (bits 7-8).
    pub fn with_src_address_control(self, new_control: DMASrcAddressControl) -> (r: Self)
        ensures
            r@ == (self@ & !SRC_ADDR_CONTROL_MASK) | ((new_control.raw() << 7u16) as u16),
    {
        Self((self.0 & !SRC_ADDR_CONTROL_MASK) | (new_control.to_u16() << 7))
    }

    /// Reads the start timing.
    ///
    /// This reads the bits under the destination address control mask
    /// (bits 5-6), matched as they stand without shifting them down, so only
    /// a value whose bits 5-6 are clear can be read: any other value names no
    /// setting here.
    pub fn start_timing(self) -> (r: DMAStartTiming)
        requires
            self@ & DEST_ADDR_CONTROL_MASK < 4,
        ensures
            r.raw() == self@ & DEST_ADDR_CONTROL_MASK,
            r == DMAStartTiming::Immediate,
    {
        let v = self.0 & DEST_ADDR_CONTROL_MASK;
        proof {
            lemma_dest_mask_values(self.0);
        }
        if v == 0 {
            DMAStartTiming::Immediate
        } else if v == 1 {
            DMAStartTiming::VBlank
        } else if v == 2 {
            DMAStartTiming::HBlank
        } else {
            DMAStartTiming::Special
        }
    }

    /// Sets the start timing (bits 12-13).
    pub fn with_start_timing(self, new_control: DMAStartTiming) -> (r: Self)
        ensures
            r@ == (self@ & !START_TIMING_MASK) | ((new_control.raw() << 12u16) as u16),
    {
        Self((self.0 & !START_TIMING_MASK) | (new_control.to_u16() << 12))
    }

    /// If the DMA repeats at its next start timing.
    pub fn repeat(self) -> (r: bool)
        ensures
            r == bit16(self@, 9),
    {
        u16_get_bit(9, self.0)
    }

    /// If the DMA repeats at its next start timing.
    pub fn with_repeat(self, bit: bool) -> (r: Self)
        ensures
            r@ == set_bit16(self@, 9, bit),
    {
        Self(u16_with_bit(9, self.0, bit))
    }

    /// If the DMA moves `u32` values (otherwise `u16`).
    pub fn transfer_u32(self) -> (r: bool)
        ensures
            r == bit16(self@, 10),
    {
        u16_get_bit(10, self.0)
    }

    /// If the DMA moves `u32` values (otherwise `u16`).
    pub fn with_transfer_u32(self, bit: bool) -> (r: Self)
        ensures
            r@ == set_bit16(self@, 10, bit),
    {
        Self(u16_with_bit(10, self.0, bit))
    }

    /// If the DMA sends an interrupt when it completes.
    pub fn irq_at_end(self) -> (r: bool)
        ensures
            r == bit16(self@, 14),
    {
        u16_get_bit(14, self.0)
    }

    /// If the DMA sends an interrupt when it completes.
    pub fn with_irq_at_end(self, bit: bool) -> (r: Self)
        ensures
            r@ == set_bit16(self@, 14, bit),
    {
        Self(u16_with_bit(14, self.0, bit))
    }

    /// If the DMA is enabled.
    pub fn enable(self) -> (r: bool)
        ensures
            r == bit16(self@, 15),
    {
        u16_get_bit(15, self.0)
    }

    /// If the DMA is enabled.
    pub fn with_enable(self, bit: bool) -> (r: Self)
        ensures
            r@ == set_bit16(self@, 15, bit),
    {
        Self(u16_with_bit(15, self.0, bit))
    }
}

/// Masking with bits 5-6 gives 0 or at least `0x20`.
proof fn lemma_dest_mask_values(x: u16)
    ensures
        (x & DEST_ADDR_CONTROL_MASK) == 0 || (x & DEST_ADDR_CONTROL_MASK) >= 0x20,
{
    assert((x & (0b11u16 << 5u16)) == 0 || (x & (0b11u16 << 5u16)) >= 0x20) by (bit_vector);
}

/// Masking with bits 7-8 gives 0 or at least `0x80`.
proof fn lemma_src_mask_values(x: u16)
    ensures
        (x & SRC_ADDR_CONTROL_MASK) == 0 || (x & SRC_ADDR_CONTROL_MASK) >= 0x80,
{
    assert((x & (0b11u16 << 7u16)) == 0 || (x & (0b11u16 << 7u16)) >= 0x80) by (bit_vector);
}

/// This is the "general purpose" DMA unit, with the fewest limits.
pub struct DMA3;

impl DMA3 {
    /// DMA 3 Source Address, read only.
    pub const DMA3SAD: usize = 0x400_00D4;

    /// DMA 3 Destination Address, read only.
    pub const DMA3DAD: usize = 0x400_00D8;

    /// DMA 3 Word Count, read only.
    pub const DMA3CNT_L: usize = 0x400_00DC;

    /// DMA 3 Control, read/write.
    pub const DMA3CNT_H: usize = 0x400_00DE;

    /// The control value that a fill uses: a fixed source, `u32` transfers,
    /// and the unit enabled.
    pub fn fill32_control() -> (r: DMAControlSetting)
        ensures
            r@ == set_bit16(
                set_bit16((0u16 & !SRC_ADDR_CONTROL_MASK) | ((2u16 << 7u16) as u16), 10, true),
                15,
                true,
            ),
    {
        DMAControlSetting::new().with_src_address_control(DMASrcAddressControl::Fixed).with_transfer_u32(
            true,
        ).with_enable(true)
    }
}


/// Every [`DMADestAddressControl`] is written as its hardware code, its number in the register:
/// `Increment` 0, `Decrement` 1, `Fixed` 2, `IncrementReload` 3; distinct settings have
/// distinct codes, so a code read back names the setting that was written.
pub proof fn lemma_dma_dest_address_control_codes(a: DMADestAddressControl, b: DMADestAddressControl)
    ensures
        a.raw() == (match a {
            DMADestAddressControl::Increment => 0u16,
            DMADestAddressControl::Decrement => 1u16,
            DMADestAddressControl::Fixed => 2u16,
            DMADestAddressControl::IncrementReload => 3u16,
        }),
        a.raw() == b.raw() ==> a == b,
{
}

/// Every [`DMASrcAddressControl`] is written as its hardware code, its number in the register:
/// `Increment` 0, `Decrement` 1, `Fixed` 2; distinct settings have
/// distinct codes, so a code read back names the setting that was written.
pub proof fn lemma_dma_src_address_control_codes(a: DMASrcAddressControl, b: DMASrcAddressControl)
    ensures
        a.raw() == (match a {
            DMASrcAddressControl::Increment => 0u16,
            DMASrcAddressControl::Decrement => 1u16,
            DMASrcAddressControl::Fixed => 2u16,
        }),
        a.raw() == b.raw() ==> a == b,
{
}

/// Every [`DMAStartTiming`] is written as its hardware code, its number in the register:
/// `Immediate` 0, `VBlank` 1, `HBlank` 2, `Special` 3; distinct settings have
/// distinct codes, so a code read back names the setting that was written.
pub proof fn lemma_dma_start_timing_codes(a: DMAStartTiming, b: DMAStartTiming)
    ensures
        a.raw() == (match a {
            DMAStartTiming::Immediate => 0u16,
            DMAStartTiming::VBlank => 1u16,
            DMAStartTiming::HBlank => 2u16,
            DMAStartTiming::Special => 3u16,
        }),
        a.raw() == b.raw() ==> a == b,
{
}

} // verus!
