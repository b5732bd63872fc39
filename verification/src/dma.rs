//! The control value of the GBA's Direct Memory Access (DMA) units.
use vstd::prelude::*;
use crate::bits::{bit16, field16, set_bit16, set_field16, group_bits, lemma_fits_two_bits};
use crate::bitfrob_calls::{u16_with_bit, u16_with_region};

verus! {

broadcast use group_bits;

/// Controls the activity of a DMA unit.
#[derive(Debug, Clone, Copy, Default)]
pub struct DmaControl(u16);

impl View for DmaControl {
    type V = u16;

    /// The raw register bits.
    closed spec fn view(&self) -> u16 {
        self.0
    }
}

impl DmaControl {
    /// Makes a new, empty value.
    pub fn new() -> (r: Self)
        ensures
            r@ == 0,
    {
        Self(0)
    }

    /// Unwrap the raw bits.
    pub fn into_u16(self) -> (r: u16)
        ensures
            r == self@,
    {
        self.0
    }

    /// Sets the DMA destination address control, see [`DmaDestAddr`].
    pub fn with_dest_addr(self, dest: DmaDestAddr) -> (r: Self)
        ensures
            r@ == set_field16(self@, 5, 6, dest.index()),
    {
        Self(u16_with_region(5, 6, self.0, dest.to_u16()))
    }

    /// Sets the DMA source address control, see [`DmaSrcAddr`].
    ///
    /// When transferring from ROM, this setting is **ignored** and the DMA unit
    /// will just act as if `Increment` is set.
    pub fn with_src_addr(self, src: DmaSrcAddr) -> (r: Self)
        ensures
            r@ == set_field16(self@, 7, 8, src.index()),
    {
        Self(u16_with_region(7, 8, self.0, src.to_u16()))
    }

    /// If the DMA unit should repeat again at the next start timing.
    pub fn with_repeat(self, repeat: bool) -> (r: Self)
        ensures
            r@ == set_bit16(self@, 9, repeat),
    {
        Self(u16_with_bit(9, self.0, repeat))
    }

    /// If the DMA unit should transfer `u32` data (otherwise it's `u16`).
    pub fn with_u32_transfer(self, u32: bool) -> (r: Self)
        ensures
            r@ == set_bit16(self@, 10, u32),
    {
        Self(u16_with_bit(10, self.0, u32))
    }

    /// Sets the start timing of the DMA activity, see [`DmaStart`].
    pub fn with_start_time(self, start: DmaStart) -> (r: Self)
        ensures
            r@ == set_field16(self@, 12, 13, start.index()),
    {
        Self(u16_with_region(12, 13, self.0, start.to_u16()))
    }

    /// If this DMA unit should send an IRQ after it completes the transfer.
    pub fn with_irq(self, irq: bool) -> (r: Self)
        ensures
            r@ == set_bit16(self@, 14, irq),
    {
        Self(u16_with_bit(14, self.0, irq))
    }

    /// If the DMA unit is enabled.
    pub fn with_enabled(self, enabled: bool) -> (r: Self)
        ensures
            r@ == set_bit16(self@, 15, enabled),
    {
        Self(u16_with_bit(15, self.0, enabled))
    }
}

/// DMA destination address settings.
#[derive(Debug, Clone, Copy)]
pub enum DmaDestAddr {
    /// After each transfer, the destination moves 1 element forward.
    Increment,
    /// After each transfer, the destination moves 1 element backward.
    Decrement,
    /// After each transfer, the destination does not change.
    Fixed,
    /// After each transfer, the destination moves 1 element forward, and it reloads to its first value when a repeated cycle begins.
    IncReload,
}

impl DmaDestAddr {
    /// The variant's number within its field (before shifting into place).
    pub open spec fn index(self) -> u16 {
        match self {
            DmaDestAddr::Increment => 0,
            DmaDestAddr::Decrement => 1,
            DmaDestAddr::Fixed => 2,
            DmaDestAddr::IncReload => 3,
        }
    }

    /// The bits this setting stands for in its register.
    pub open spec fn raw(self) -> u16 {
        (self.index() << 5u16) as u16
    }

    /// The bits this setting stands for in its register.
    pub fn to_u16(self) -> (r: u16)
        ensures
            r == self.raw(),
    {
        let i: u16 = match self {
            DmaDestAddr::Increment => 0,
            DmaDestAddr::Decrement => 1,
            DmaDestAddr::Fixed => 2,
            DmaDestAddr::IncReload => 3,
        };
        i << 5u16
    }
}

impl Default for DmaDestAddr {
    fn default() -> (r: Self)
        ensures
            r == DmaDestAddr::Increment,
    {
        DmaDestAddr::Increment
    }
}

/// DMA source address settings.
///
/// When transferring from ROM, this setting is **ignored** and the DMA unit
/// will just act as if `Increment` is set.
#[derive(Debug, Clone, Copy)]
pub enum DmaSrcAddr {
    /// After each transfer, the source address moves 1 element forward.
    Increment,
    /// After each transfer, the source address moves 1 element backward.
    Decrement,
    /// After each transfer, the source address does not change.
    Fixed,
}

impl DmaSrcAddr {
    /// The variant's number within its field (before shifting into place).
    pub open spec fn index(self) -> u16 {
        match self {
            DmaSrcAddr::Increment => 0,
            DmaSrcAddr::Decrement => 1,
            DmaSrcAddr::Fixed => 2,
        }
    }

    /// The bits this setting stands for in its register.
    pub open spec fn raw(self) -> u16 {
        (self.index() << 7u16) as u16
    }

    /// The bits this setting stands for in its register.
    pub fn to_u16(self) -> (r: u16)
        ensures
            r == self.raw(),
    {
        let i: u16 = match self {
            DmaSrcAddr::Increment => 0,
            DmaSrcAddr::Decrement => 1,
            DmaSrcAddr::Fixed => 2,
        };
        i << 7u16
    }
}

impl Default for DmaSrcAddr {
    fn default() -> (r: Self)
        ensures
            r == DmaSrcAddr::Increment,
    {
        DmaSrcAddr::Increment
    }
}

/// When the DMA unit should begin transferring data.
#[derive(Debug, Clone, Copy)]
pub enum DmaStart {
    /// Makes the DMA unit run right away.
    Immediate,
    /// The DMA unit will start at vertical blank.
    VBlank,
    /// The DMA unit will start at horizontal blank.
    HBlank,
    /// A special timing that depends on the DMA unit.
    Special,
}

impl DmaStart {
    /// The variant's number within its field (before shifting into place).
    pub open spec fn index(self) -> u16 {
        match self {
            DmaStart::Immediate => 0,
            DmaStart::VBlank => 1,
            DmaStart::HBlank => 2,
            DmaStart::Special => 3,
        }
    }

    /// The bits this setting stands for in its register.
    pub open spec fn raw(self) -> u16 {
        (self.index() << 12u16) as u16
    }

    /// The bits this setting stands for in its register.
    pub fn to_u16(self) -> (r: u16)
        ensures
            r == self.raw(),
    {
        let i: u16 = match self {
            DmaStart::Immediate => 0,
            DmaStart::VBlank => 1,
            DmaStart::HBlank => 2,
            DmaStart::Special => 3,
        };
        i << 12u16
    }
}

impl Default for DmaStart {
    fn default() -> (r: Self)
        ensures
            r == DmaStart::Immediate,
    {
        DmaStart::Immediate
    }
}


/// Setting the start timing writes its hardware code into bits 12-13
/// (`Immediate` 0, `VBlank` 1, `HBlank` 2, `Special` 3) and keeps every other
/// bit of the control value.
pub proof fn lemma_start_time_code(x: u16, start: DmaStart)
    ensures
        field16(set_field16(x, 12, 13, start.index()), 12, 13) == (match start {
            DmaStart::Immediate => 0u16,
            DmaStart::VBlank => 1u16,
            DmaStart::HBlank => 2u16,
            DmaStart::Special => 3u16,
        }),
        forall|c: u16|
            c < 16 && (c < 12 || 13 < c) ==> #[trigger] bit16(set_field16(x, 12, 13, start.index()), c)
                == bit16(x, c),
{
    lemma_fits_two_bits(start.index());
}

/// Setting the destination address control writes its hardware code into
/// bits 5-6 (`Increment` 0, `Decrement` 1, `Fixed` 2, `IncReload` 3) and keeps
/// every other bit of the control value.
pub proof fn lemma_dest_addr_code(x: u16, dest: DmaDestAddr)
    ensures
        field16(set_field16(x, 5, 6, dest.index()), 5, 6) == (match dest {
            DmaDestAddr::Increment => 0u16,
            DmaDestAddr::Decrement => 1u16,
            DmaDestAddr::Fixed => 2u16,
            DmaDestAddr::IncReload => 3u16,
        }),
        forall|c: u16|
            c < 16 && (c < 5 || 6 < c) ==> #[trigger] bit16(set_field16(x, 5, 6, dest.index()), c)
                == bit16(x, c),
{
    lemma_fits_two_bits(dest.index());
}

/// Setting the source address control writes its hardware code into bits
/// 7-8 (`Increment` 0, `Decrement` 1, `Fixed` 2) and keeps every other bit of
/// the control value.
pub proof fn lemma_src_addr_code(x: u16, src: DmaSrcAddr)
    ensures
        field16(set_field16(x, 7, 8, src.index()), 7, 8) == (match src {
            DmaSrcAddr::Increment => 0u16,
            DmaSrcAddr::Decrement => 1u16,
            DmaSrcAddr::Fixed => 2u16,
        }),
        forall|c: u16|
            c < 16 && (c < 7 || 8 < c) ==> #[trigger] bit16(set_field16(x, 7, 8, src.index()), c)
                == bit16(x, c),
{
    lemma_fits_two_bits(src.index());
}

/// The control value of a plain `u32` copy with DMA 3: `u32` transfers,
/// started right away, unit enabled (everything else zero).
pub fn u32_copy_control() -> (r: DmaControl)
    ensures
        r@ == 0x8400,
{
    let r = DmaControl::new().with_u32_transfer(true).with_enabled(true);
    assert(set_bit16(set_bit16(0, 10, true), 15, true) == 0x8400) by (bit_vector);
    r
}

/// The control value of a fill with DMA 3: the destination moves forward,
/// the source stays fixed, `u32` transfers, started right away, unit
/// enabled.
pub fn fill_control() -> (r: DmaControl)
    ensures
        r@ == 0x8500,
{
    let r = DmaControl::new()
        .with_dest_addr(DmaDestAddr::Increment)
        .with_src_addr(DmaSrcAddr::Fixed)
        .with_u32_transfer(true)
        .with_start_time(DmaStart::Immediate)
        .with_enabled(true);
    assert(set_bit16(
        set_field16(set_bit16(set_field16(set_field16(0, 5, 6, 0), 7, 8, 2), 10, true), 12, 13, 0),
        15,
        true,
    ) == 0x8500) by (bit_vector);
    r
}

} // verus!
