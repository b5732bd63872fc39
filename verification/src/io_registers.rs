//! The value types of the IO registers, named as in GBATEK's I/O map.
use vstd::prelude::*;
use crate::bits::{bit16, set_bit16, group_bits};
use crate::bitfrob_calls::{u16_get_bit, u16_with_bit};

verus! {

broadcast use group_bits;

/// The address of the display control register.
pub const DISPCNT: usize = 0x400_0000;

/// The address of the vertical counter register.
pub const VCOUNT: usize = 0x400_0006;

/// The height of the screen in pixels; `VCOUNT` at or above it is vblank.
pub const SCREEN_HEIGHT: u16 = 160;

/// The six display modes available on the GBA.
#[derive(Debug, Clone, Copy, PartialEq, Eq)]
pub enum DisplayControlMode {
    /// This basically allows for the most different things at once (all layers,
    /// 1024 tiles, two palette modes, etc), but you can't do affine
    /// transformations.
    Tiled0,
    /// This is a mix of `Tile0` and `Tile2`: BG0 and BG1 run as if in `Tiled0`,
    /// and BG2 runs as if in `Tiled2`.
    Tiled1,
    /// This allows affine transformations, but only uses BG2 and BG3.
    Tiled2,
    /// This is the basic bitmap draw mode. The whole screen is a single bitmap.
    /// Uses BG2 only.
    Bitmap3,
    /// This uses _paletted color_ so that there's enough space to have two pages
    /// at _full resolution_, allowing page flipping. Uses BG2 only.
    Bitmap4,
    /// This uses _reduced resolution_ so that there's enough space to have two
    /// pages with _full color_, allowing page flipping. Uses BG2 only.
    Bitmap5,
}

impl DisplayControlMode {
    /// The mode's number in the display control register.
    pub open spec fn raw(self) -> u16 {
        match self {
            DisplayControlMode::Tiled0 => 0,
            DisplayControlMode::Tiled1 => 1,
            DisplayControlMode::Tiled2 => 2,
            DisplayControlMode::Bitmap3 => 3,
            DisplayControlMode::Bitmap4 => 4,
            DisplayControlMode::Bitmap5 => 5,
        }
    }
}

/// The mask of the background mode bits.
pub const BG_MODE_MASK: u16 = 0b111;

/// A newtype over the various display control options that you have on a GBA.
#[derive(Debug, Copy, Clone, Default, PartialEq, Eq)]
pub struct DisplayControlSetting(pub u16);

impl View for DisplayControlSetting {
    type V = u16;

    /// The raw register bits.
    open spec fn view(&self) -> u16 {
        self.0
    }
}

impl DisplayControlSetting {
    /// Makes a new, zeroed value.
    pub fn new() -> (r: Self)
        ensures
            r@ == 0,
    {
        DisplayControlSetting(0)
    }

    /// The display mode held in bits 0-2.
    ///
    /// The bits must hold one of the six modes: 6 and 7 name no mode.
    pub fn mode(self) -> (r: DisplayControlMode)
        requires
            self@ & BG_MODE_MASK < 6,
        ensures
            r.raw() == self@ & BG_MODE_MASK,
    {
        match self.0 & BG_MODE_MASK {
            0 => DisplayControlMode::Tiled0,
            1 => DisplayControlMode::Tiled1,
            2 => DisplayControlMode::Tiled2,
            3 => DisplayControlMode::Bitmap3,
            4 => DisplayControlMode::Bitmap4,
            _ => DisplayControlMode::Bitmap5,
        }
    }

    /// Puts `new_mode` into bits 0-2, keeping every other bit.
    pub fn set_mode(&mut self, new_mode: DisplayControlMode)
        ensures
            final(self)@ == (old(self)@ & !BG_MODE_MASK) | new_mode.raw(),
    {
        self.0 = self.0 & !BG_MODE_MASK;
        self.0 = self.0 | match new_mode {
            DisplayControlMode::Tiled0 => 0,
            DisplayControlMode::Tiled1 => 1,
            DisplayControlMode::Tiled2 => 2,
            DisplayControlMode::Bitmap3 => 3,
            DisplayControlMode::Bitmap4 => 4,
            DisplayControlMode::Bitmap5 => 5,
        };
    }

    /// Bit 3.
    pub fn cgb_mode(self) -> (r: bool)
        ensures
            r == bit16(self@, 3),
    {
        u16_get_bit(3, self.0)
    }

    /// Sets bit 3.
    pub fn with_cgb_mode(self, bit: bool) -> (r: Self)
        ensures
            r@ == set_bit16(self@, 3, bit),
    {
        Self(u16_with_bit(3, self.0, bit))
    }

    /// Bit 4.
    pub fn page1_enabled(self) -> (r: bool)
        ensures
            r == bit16(self@, 4),
    {
        u16_get_bit(4, self.0)
    }

    /// Sets bit 4.
    pub fn with_page1_enabled(self, bit: bool) -> (r: Self)
        ensures
            r@ == set_bit16(self@, 4, bit),
    {
        Self(u16_with_bit(4, self.0, bit))
    }

    /// Bit 5.
    pub fn hblank_interval_free(self) -> (r: bool)
        ensures
            r == bit16(self@, 5),
    {
        u16_get_bit(5, self.0)
    }

    /// Sets bit 5.
    pub fn with_hblank_interval_free(self, bit: bool) -> (r: Self)
        ensures
            r@ == set_bit16(self@, 5, bit),
    {
        Self(u16_with_bit(5, self.0, bit))
    }

    /// Bit 6.
    pub fn object_memory_1d(self) -> (r: bool)
        ensures
            r == bit16(self@, 6),
    {
        u16_get_bit(6, self.0)
    }

    /// Sets bit 6.
    pub fn with_object_memory_1d(self, bit: bool) -> (r: Self)
        ensures
            r@ == set_bit16(self@, 6, bit),
    {
        Self(u16_with_bit(6, self.0, bit))
    }

    /// Bit 7.
    pub fn force_blank(self) -> (r: bool)
        ensures
            r == bit16(self@, 7),
    {
        u16_get_bit(7, self.0)
    }

    /// Sets bit 7.
    pub fn with_force_blank(self, bit: bool) -> (r: Self)
        ensures
            r@ == set_bit16(self@, 7, bit),
    {
        Self(u16_with_bit(7, self.0, bit))
    }

    /// Bit 8.
    pub fn display_bg0(self) -> (r: bool)
        ensures
            r == bit16(self@, 8),
    {
        u16_get_bit(8, self.0)
    }

    /// Sets bit 8.
    pub fn with_display_bg0(self, bit: bool) -> (r: Self)
        ensures
            r@ == set_bit16(self@, 8, bit),
    {
        Self(u16_with_bit(8, self.0, bit))
    }

    /// Bit 9.
    pub fn display_bg1(self) -> (r: bool)
        ensures
            r == bit16(self@, 9),
    {
        u16_get_bit(9, self.0)
    }

    /// Sets bit 9.
    pub fn with_display_bg1(self, bit: bool) -> (r: Self)
        ensures
            r@ == set_bit16(self@, 9, bit),
    {
        Self(u16_with_bit(9, self.0, bit))
    }

    /// Bit 10.
    pub fn display_bg2(self) -> (r: bool)
        ensures
            r == bit16(self@, 10),
    {
        u16_get_bit(10, self.0)
    }

    /// Sets bit 10.
    pub fn with_display_bg2(self, bit: bool) -> (r: Self)
        ensures
            r@ == set_bit16(self@, 10, bit),
    {
        Self(u16_with_bit(10, self.0, bit))
    }

    /// Bit 11.
    pub fn display_bg3(self) -> (r: bool)
        ensures
            r == bit16(self@, 11),
    {
        u16_get_bit(11, self.0)
    }

    /// Sets bit 11.
    pub fn with_display_bg3(self, bit: bool) -> (r: Self)
        ensures
            r@ == set_bit16(self@, 11, bit),
    {
        Self(u16_with_bit(11, self.0, bit))
    }

    /// Bit 12.
    pub fn display_object(self) -> (r: bool)
        ensures
            r == bit16(self@, 12),
    {
        u16_get_bit(12, self.0)
    }

    /// Sets bit 12.
    pub fn with_display_object(self, bit: bool) -> (r: Self)
        ensures
            r@ == set_bit16(self@, 12, bit),
    {
        Self(u16_with_bit(12, self.0, bit))
    }

    /// Bit 13.
    pub fn display_window0(self) -> (r: bool)
        ensures
            r == bit16(self@, 13),
    {
        u16_get_bit(13, self.0)
    }

    /// Sets bit 13.
    pub fn with_display_window0(self, bit: bool) -> (r: Self)
        ensures
            r@ == set_bit16(self@, 13, bit),
    {
        Self(u16_with_bit(13, self.0, bit))
    }

    /// Bit 14.
    pub fn display_window1(self) -> (r: bool)
        ensures
            r == bit16(self@, 14),
    {
        u16_get_bit(14, self.0)
    }

    /// Sets bit 14.
    pub fn with_display_window1(self, bit: bool) -> (r: Self)
        ensures
            r@ == set_bit16(self@, 14, bit),
    {
        Self(u16_with_bit(14, self.0, bit))
    }

    /// Bit 15.
    pub fn display_object_window(self) -> (r: bool)
        ensures
            r == bit16(self@, 15),
    {
        u16_get_bit(15, self.0)
    }

    /// Sets bit 15.
    pub fn with_display_object_window(self, bit: bool) -> (r: Self)
        ensures
            r@ == set_bit16(self@, 15, bit),
    {
        Self(u16_with_bit(15, self.0, bit))
    }
}

/// Whether a `VCOUNT` reading is in the vertical blank.
pub fn in_vblank(vcount: u16) -> (r: bool)
    ensures
        r == (vcount >= SCREEN_HEIGHT),
{
    vcount >= SCREEN_HEIGHT
}

/// Reading the mode back after setting it gives the mode that was set,
/// whatever the other bits hold.
pub proof fn lemma_mode_of_set_mode(x: u16, m: DisplayControlMode)
    ensures
        ((x & !BG_MODE_MASK) | m.raw()) & BG_MODE_MASK == m.raw(),
        ((x & !BG_MODE_MASK) | m.raw()) & BG_MODE_MASK < 6,
{
    let r = m.raw();
    assert(r < 6 ==> ((x & !7u16) | r) & 7u16 == r) by (bit_vector);
}


/// Every [`DisplayControlMode`] is written as its hardware code, its number in the register:
/// `Tiled0` 0, `Tiled1` 1, `Tiled2` 2, `Bitmap3` 3, `Bitmap4` 4, `Bitmap5` 5; distinct settings have
/// distinct codes, so a code read back names the setting that was written.
pub proof fn lemma_display_control_mode_codes(a: DisplayControlMode, b: DisplayControlMode)
    ensures
        a.raw() == (match a {
            DisplayControlMode::Tiled0 => 0u16,
            DisplayControlMode::Tiled1 => 1u16,
            DisplayControlMode::Tiled2 => 2u16,
            DisplayControlMode::Bitmap3 => 3u16,
            DisplayControlMode::Bitmap4 => 4u16,
            DisplayControlMode::Bitmap5 => 5u16,
        }),
        a.raw() == b.raw() ==> a == b,
{
}

} // verus!
