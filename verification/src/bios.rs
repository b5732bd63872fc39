//! Value types used with the GBA BIOS functions.
//!
//! The BIOS functions themselves are reached through software interrupt
//! instructions, which only exist on the GBA; the types that describe their
//! inputs and outputs stand here.
use vstd::prelude::*;
use crate::bits::{bit8, set_bit8, group_bits};
use crate::bitfrob_calls::{u8_get_bit, u8_with_bit};

verus! {

broadcast use group_bits;

/// Used with `BgAffineSet`.
#[derive(Debug, Clone, Copy, Default, PartialEq, Eq, PartialOrd, Ord, Hash)]
pub struct BgAffineSetSrc {
    pub original_center_x: i32,
    pub original_center_y: i32,
    pub display_center_x: i16,
    pub display_center_y: i16,
    pub scale_x: i16,
    pub scale_y: i16,
    pub angle: u16,
}

/// Used with `BgAffineSet`.
#[derive(Debug, Clone, Copy, Default, PartialEq, Eq, PartialOrd, Ord, Hash)]
pub struct BgAffineSetDest {
    pub dx_same: i16,
    pub dx_next: i16,
    pub dy_same: i16,
    pub dy_next: i16,
    pub start_x: i32,
    pub start_y: i32,
}

/// Used with `ObjAffineSet`.
#[derive(Debug, Clone, Copy, Default, PartialEq, Eq, PartialOrd, Ord, Hash)]
pub struct ObjAffineSetSrc {
    pub scale_x: i16,
    pub scale_y: i16,
    pub angle: u16,
}

/// Used with `ObjAffineSet`.
#[derive(Debug, Clone, Copy, Default, PartialEq, Eq, PartialOrd, Ord, Hash)]
pub struct ObjAffineSetDest {
    pub dx_same: i16,
    pub dx_next: i16,
    pub dy_same: i16,
    pub dy_next: i16,
}

/// Use with `BitUnPack`.
#[derive(Debug, Clone, Copy, Default, PartialEq, Eq, PartialOrd, Ord, Hash)]
pub struct BitUnPackInfo {
    pub src_len: u16,
    pub src_bit_width: u8,
    pub dest_bit_width: u8,
    pub offset_and_flags: u32,
}

/// Which memory and registers `RegisterRamReset` resets, one bit each.
#[derive(Debug, Clone, Copy, Default, PartialEq, Eq)]
pub struct RegisterRamResetFlags(pub(crate) u8);

impl View for RegisterRamResetFlags {
    type V = u8;

    /// The raw bits.
    closed spec fn view(&self) -> u8 {
        self.0
    }
}

impl RegisterRamResetFlags {
    /// Makes a new, zeroed value.
    pub fn new() -> (r: Self)
        ensures
            r@ == 0,
    {
        RegisterRamResetFlags(0)
    }

    /// The raw bits, as the BIOS call takes them.
    pub fn to_u8(self) -> (r: u8)
        ensures
            r == self@,
    {
        self.0
    }

    /// Bit 0.
    pub fn ewram(self) -> (r: bool)
        ensures
            r == bit8(self@, 0),
    {
        u8_get_bit(0, self.0)
    }

    /// Sets bit 0.
    pub fn with_ewram(self, b: bool) -> (r: Self)
        ensures
            r@ == set_bit8(self@, 0, b),
            bit8(r@, 0) == b,
    {
        RegisterRamResetFlags(u8_with_bit(0, self.0, b))
    }

    /// Bit 1.
    pub fn iwram(self) -> (r: bool)
        ensures
            r == bit8(self@, 1),
    {
        u8_get_bit(1, self.0)
    }

    /// Sets bit 1.
    pub fn with_iwram(self, b: bool) -> (r: Self)
        ensures
            r@ == set_bit8(self@, 1, b),
            bit8(r@, 1) == b,
    {
        RegisterRamResetFlags(u8_with_bit(1, self.0, b))
    }

    /// Bit 2.
    pub fn palram(self) -> (r: bool)
        ensures
            r == bit8(self@, 2),
    {
        u8_get_bit(2, self.0)
    }

    /// Sets bit 2.
    pub fn with_palram(self, b: bool) -> (r: Self)
        ensures
            r@ == set_bit8(self@, 2, b),
            bit8(r@, 2) == b,
    {
        RegisterRamResetFlags(u8_with_bit(2, self.0, b))
    }

    /// Bit 3.
    pub fn vram(self) -> (r: bool)
        ensures
            r == bit8(self@, 3),
    {
        u8_get_bit(3, self.0)
    }

    /// Sets bit 3.
    pub fn with_vram(self, b: bool) -> (r: Self)
        ensures
            r@ == set_bit8(self@, 3, b),
            bit8(r@, 3) == b,
    {
        RegisterRamResetFlags(u8_with_bit(3, self.0, b))
    }

    /// Bit 4.
    pub fn oam(self) -> (r: bool)
        ensures
            r == bit8(self@, 4),
    {
        u8_get_bit(4, self.0)
    }

    /// Sets bit 4.
    pub fn with_oam(self, b: bool) -> (r: Self)
        ensures
            r@ == set_bit8(self@, 4, b),
            bit8(r@, 4) == b,
    {
        RegisterRamResetFlags(u8_with_bit(4, self.0, b))
    }

    /// Bit 5.
    pub fn sio(self) -> (r: bool)
        ensures
            r == bit8(self@, 5),
    {
        u8_get_bit(5, self.0)
    }

    /// Sets bit 5.
    pub fn with_sio(self, b: bool) -> (r: Self)
        ensures
            r@ == set_bit8(self@, 5, b),
            bit8(r@, 5) == b,
    {
        RegisterRamResetFlags(u8_with_bit(5, self.0, b))
    }

    /// Bit 6.
    pub fn sound(self) -> (r: bool)
        ensures
            r == bit8(self@, 6),
    {
        u8_get_bit(6, self.0)
    }

    /// Sets bit 6.
    pub fn with_sound(self, b: bool) -> (r: Self)
        ensures
            r@ == set_bit8(self@, 6, b),
            bit8(r@, 6) == b,
    {
        RegisterRamResetFlags(u8_with_bit(6, self.0, b))
    }

    /// Bit 7.
    pub fn all_other_io(self) -> (r: bool)
        ensures
            r == bit8(self@, 7),
    {
        u8_get_bit(7, self.0)
    }

    /// Sets bit 7.
    pub fn with_all_other_io(self, b: bool) -> (r: Self)
        ensures
            r@ == set_bit8(self@, 7, b),
            bit8(r@, 7) == b,
    {
        RegisterRamResetFlags(u8_with_bit(7, self.0, b))
    }
}

} // verus!
