//! The display control, display status and mosaic registers.
use vstd::prelude::*;
use crate::bits::bit16;
use crate::bits::set_bit16;

verus! {

/// LCD Control. Read/Write.
pub const DISPCNT: usize = 0x400_0000;

/// Display Status and IRQ Control. Read/Write.
pub const DISPSTAT: usize = 0x400_0004;

/// Vertical Counter (LY). Read only.
///
/// Gives the current scanline that the display controller is working on. If
/// this is at or above [`VBLANK_SCANLINE`] then the display controller is in
/// a "vertical blank" period.
pub const VCOUNT: usize = 0x400_0006;

/// Global mosaic effect control. Write-only.
pub const MOSAIC: usize = 0x400_004C;

/// If the `VCOUNT` register reads equal to or above this then you're in vblank.
pub const VBLANK_SCANLINE: u16 = 160;

/// Whether a `VCOUNT` reading is in the vertical blank.
pub fn in_vblank(vcount: u16) -> (r: bool)
    ensures
        r == (vcount >= VBLANK_SCANLINE),
{
    vcount >= VBLANK_SCANLINE
}

/// The six display modes available on the GBA.
#[derive(Debug, Clone, Copy, PartialEq, Eq)]
pub enum DisplayMode {
    /// Tiled: 4 layers, no affine
    Mode0,
    /// Tiled: BG0 and BG1 as mode 0, BG2 as mode 2
    Mode1,
    /// Tiled: 2 affine layers
    Mode2,
    /// Bitmap: 240x160, full color, 1 page
    Mode3,
    /// Bitmap: 240x160, 8bpp palette, 2 pages
    Mode4,
    /// Bitmap: 160x128, full color, 2 pages
    Mode5,
}

impl DisplayMode {
    /// The setting's number in its register field.
    pub open spec fn raw(self) -> u16 {
        match self {
            DisplayMode::Mode0 => 0,
            DisplayMode::Mode1 => 1,
            DisplayMode::Mode2 => 2,
            DisplayMode::Mode3 => 3,
            DisplayMode::Mode4 => 4,
            DisplayMode::Mode5 => 5,
        }
    }

    /// The setting's number in its register field.
    pub fn to_u16(self) -> (r: u16)
        ensures
            r == self.raw(),
    {
        match self {
            DisplayMode::Mode0 => 0,
            DisplayMode::Mode1 => 1,
            DisplayMode::Mode2 => 2,
            DisplayMode::Mode3 => 3,
            DisplayMode::Mode4 => 4,
            DisplayMode::Mode5 => 5,
        }
    }
}

/// Setting for the display control register.
#[derive(Debug, Copy, Clone, Default, PartialEq, Eq)]
pub struct DisplayControlSetting(pub u16);

impl View for DisplayControlSetting {
    type V = u16;

    /// The raw register bits.
    open spec fn view(&self) -> u16 {
        self.0
    }
}

impl DisplayControlSetting {
    /// Makes a new, zeroed value.
    pub fn new() -> (r: Self)
        ensures
            r@ == 0,
    {
        DisplayControlSetting(0)
    }

    /// The mask of bits 0-2.
    pub const MODE_MASK: u16 = 0x0007u16;

    /// Bits 0-2, as a [`DisplayMode`]: only the first 6 values name one.
    pub fn mode(self) -> (r: DisplayMode)
        requires
            (self@ & 0x0007u16) >> 0u16 < 6,
        ensures
            r.raw() == (self@ & 0x0007u16) >> 0u16,
    {
        let raw: u16 = self.0;
        let v: u16 = (raw & 0x0007u16) >> 0u16;
        if v == 0 {
            DisplayMode::Mode0
        } else if v == 1 {
            DisplayMode::Mode1
        } else if v == 2 {
            DisplayMode::Mode2
        } else if v == 3 {
            DisplayMode::Mode3
        } else if v == 4 {
            DisplayMode::Mode4
        } else {
            DisplayMode::Mode5
        }
    }

    /// Puts `mode` into bits 0-2.
    pub fn with_mode(self, mode: DisplayMode) -> (r: Self)
        ensures
            r@ == (self@ & !0x0007u16) | ((mode.raw() << 0u16) & 0x0007u16),
    {
        DisplayControlSetting((self.0 & !0x0007u16) | ((mode.to_u16() << 0u16) & 0x0007u16))
    }

    /// The mask of bit 3.
    pub const CGB_MODE_BIT: u16 = 0x0008u16;

    /// Bit 3.
    pub fn cgb_mode(self) -> (r: bool)
        ensures
            r == bit16(self@, 3),
    {
        (self.0 & (1u16 << 3u16)) != 0
    }

    /// Sets bit 3.
    pub fn with_cgb_mode(self, bit: bool) -> (r: Self)
        ensures
            r@ == set_bit16(self@, 3, bit),
    {
        if bit {
            DisplayControlSetting(self.0 | (1u16 << 3u16))
        } else {
            DisplayControlSetting(self.0 & !(1u16 << 3u16))
        }
    }

    /// The mask of bit 4.
    pub const FRAME1_BIT: u16 = 0x0010u16;

    /// Bit 4.
    pub fn frame1(self) -> (r: bool)
        ensures
            r == bit16(self@, 4),
    {
        (self.0 & (1u16 << 4u16)) != 0
    }

    /// Sets bit 4.
    pub fn with_frame1(self, bit: bool) -> (r: Self)
        ensures
            r@ == set_bit16(self@, 4, bit),
    {
        if bit {
            DisplayControlSetting(self.0 | (1u16 << 4u16))
        } else {
            DisplayControlSetting(self.0 & !(1u16 << 4u16))
        }
    }

    /// The mask of bit 5.
    pub const HBLANK_INTERVAL_FREE_BIT: u16 = 0x0020u16;

    /// Bit 5.
    pub fn hblank_interval_free(self) -> (r: bool)
        ensures
            r == bit16(self@, 5),
    {
        (self.0 & (1u16 << 5u16)) != 0
    }

    /// Sets bit 5.
    pub fn with_hblank_interval_free(self, bit: bool) -> (r: Self)
        ensures
            r@ == set_bit16(self@, 5, bit),
    {
        if bit {
            DisplayControlSetting(self.0 | (1u16 << 5u16))
        } else {
            DisplayControlSetting(self.0 & !(1u16 << 5u16))
        }
    }

    /// The mask of bit 6.
    pub const OAM_MEMORY_1D_BIT: u16 = 0x0040u16;

    /// Bit 6.
    pub fn oam_memory_1d(self) -> (r: bool)
        ensures
            r == bit16(self@, 6),
    {
        (self.0 & (1u16 << 6u16)) != 0
    }

    /// Sets bit 6.
    pub fn with_oam_memory_1d(self, bit: bool) -> (r: Self)
        ensures
            r@ == set_bit16(self@, 6, bit),
    {
        if bit {
            DisplayControlSetting(self.0 | (1u16 << 6u16))
        } else {
            DisplayControlSetting(self.0 & !(1u16 << 6u16))
        }
    }

    /// The mask of bit 7.
    pub const FORCE_VBLANK_BIT: u16 = 0x0080u16;

    /// Bit 7.
    pub fn force_vblank(self) -> (r: bool)
        ensures
            r == bit16(self@, 7),
    {
        (self.0 & (1u16 << 7u16)) != 0
    }

    /// Sets bit 7.
    pub fn with_force_vblank(self, bit: bool) -> (r: Self)
        ensures
            r@ == set_bit16(self@, 7, bit),
    {
        if bit {
            DisplayControlSetting(self.0 | (1u16 << 7u16))
        } else {
            DisplayControlSetting(self.0 & !(1u16 << 7u16))
        }
    }

    /// The mask of bit 8.
    pub const BG0_BIT: u16 = 0x0100u16;

    /// Bit 8.
    pub fn bg0(self) -> (r: bool)
        ensures
            r == bit16(self@, 8),
    {
        (self.0 & (1u16 << 8u16)) != 0
    }

    /// Sets bit 8.
    pub fn with_bg0(self, bit: bool) -> (r: Self)
        ensures
            r@ == set_bit16(self@, 8, bit),
    {
        if bit {
            DisplayControlSetting(self.0 | (1u16 << 8u16))
        } else {
            DisplayControlSetting(self.0 & !(1u16 << 8u16))
        }
    }

    /// The mask of bit 9.
    pub const BG1_BIT: u16 = 0x0200u16;

    /// Bit 9.
    pub fn bg1(self) -> (r: bool)
        ensures
            r == bit16(self@, 9),
    {
        (self.0 & (1u16 << 9u16)) != 0
    }

    /// Sets bit 9.
    pub fn with_bg1(self, bit: bool) -> (r: Self)
        ensures
            r@ == set_bit16(self@, 9, bit),
    {
        if bit {
            DisplayControlSetting(self.0 | (1u16 << 9u16))
        } else {
            DisplayControlSetting(self.0 & !(1u16 << 9u16))
        }
    }

    /// The mask of bit 10.
    pub const BG2_BIT: u16 = 0x0400u16;

    /// Bit 10.
    pub fn bg2(self) -> (r: bool)
        ensures
            r == bit16(self@, 10),
    {
        (self.0 & (1u16 << 10u16)) != 0
    }

    /// Sets bit 10.
    pub fn with_bg2(self, bit: bool) -> (r: Self)
        ensures
            r@ == set_bit16(self@, 10, bit),
    {
        if bit {
            DisplayControlSetting(self.0 | (1u16 << 10u16))
        } else {
            DisplayControlSetting(self.0 & !(1u16 << 10u16))
        }
    }

    /// The mask of bit 11.
    pub const BG3_BIT: u16 = 0x0800u16;

    /// Bit 11.
    pub fn bg3(self) -> (r: bool)
        ensures
            r == bit16(self@, 11),
    {
        (self.0 & (1u16 << 11u16)) != 0
    }

    /// Sets bit 11.
    pub fn with_bg3(self, bit: bool) -> (r: Self)
        ensures
            r@ == set_bit16(self@, 11, bit),
    {
        if bit {
            DisplayControlSetting(self.0 | (1u16 << 11u16))
        } else {
            DisplayControlSetting(self.0 & !(1u16 << 11u16))
        }
    }

    /// The mask of bit 12.
    pub const OBJ_BIT: u16 = 0x1000u16;

    /// Bit 12.
    pub fn obj(self) -> (r: bool)
        ensures
            r == bit16(self@, 12),
    {
        (self.0 & (1u16 << 12u16)) != 0
    }

    /// Sets bit 12.
    pub fn with_obj(self, bit: bool) -> (r: Self)
        ensures
            r@ == set_bit16(self@, 12, bit),
    {
        if bit {
            DisplayControlSetting(self.0 | (1u16 << 12u16))
        } else {
            DisplayControlSetting(self.0 & !(1u16 << 12u16))
        }
    }

    /// The mask of bit 13.
    pub const WIN0_BIT: u16 = 0x2000u16;

    /// Bit 13.
    pub fn win0(self) -> (r: bool)
        ensures
            r == bit16(self@, 13),
    {
        (self.0 & (1u16 << 13u16)) != 0
    }

    /// Sets bit 13.
    pub fn with_win0(self, bit: bool) -> (r: Self)
        ensures
            r@ == set_bit16(self@, 13, bit),
    {
        if bit {
            DisplayControlSetting(self.0 | (1u16 << 13u16))
        } else {
            DisplayControlSetting(self.0 & !(1u16 << 13u16))
        }
    }

    /// The mask of bit 14.
    pub const WIN1_BIT: u16 = 0x4000u16;

    /// Bit 14.
    pub fn win1(self) -> (r: bool)
        ensures
            r == bit16(self@, 14),
    {
        (self.0 & (1u16 << 14u16)) != 0
    }

    /// Sets bit 14.
    pub fn with_win1(self, bit: bool) -> (r: Self)
        ensures
            r@ == set_bit16(self@, 14, bit),
    {
        if bit {
            DisplayControlSetting(self.0 | (1u16 << 14u16))
        } else {
            DisplayControlSetting(self.0 & !(1u16 << 14u16))
        }
    }

    /// The mask of bit 15.
    pub const OBJ_WINDOW_BIT: u16 = 0x8000u16;

    /// Bit 15.
    pub fn obj_window(self) -> (r: bool)
        ensures
            r == bit16(self@, 15),
    {
        (self.0 & (1u16 << 15u16)) != 0
    }

    /// Sets bit 15.
    pub fn with_obj_window(self, bit: bool) -> (r: Self)
        ensures
            r@ == set_bit16(self@, 15, bit),
    {
        if bit {
            DisplayControlSetting(self.0 | (1u16 << 15u16))
        } else {
            DisplayControlSetting(self.0 & !(1u16 << 15u16))
        }
    }
}

/// A newtype over display status and interrupt control values.
#[derive(Debug, Copy, Clone, Default, PartialEq, Eq)]
pub struct DisplayStatusSetting(pub u16);

impl View for DisplayStatusSetting {
    type V = u16;

    /// The raw register bits.
    open spec fn view(&self) -> u16 {
        self.0
    }
}

impl DisplayStatusSetting {
    /// Makes a new, zeroed value.
    pub fn new() -> (r: Self)
        ensures
            r@ == 0,
    {
        DisplayStatusSetting(0)
    }

    /// The mask of bit 0.
    pub const VBLANK_FLAG_BIT: u16 = 0x0001u16;

    /// Bit 0.
    pub fn vblank_flag(self) -> (r: bool)
        ensures
            r == bit16(self@, 0),
    {
        (self.0 & (1u16 << 0u16)) != 0
    }

    /// Sets bit 0.
    pub fn with_vblank_flag(self, bit: bool) -> (r: Self)
        ensures
            r@ == set_bit16(self@, 0, bit),
    {
        if bit {
            DisplayStatusSetting(self.0 | (1u16 << 0u16))
        } else {
            DisplayStatusSetting(self.0 & !(1u16 << 0u16))
        }
    }

    /// The mask of bit 1.
    pub const HBLANK_FLAG_BIT: u16 = 0x0002u16;

    /// Bit 1.
    pub fn hblank_flag(self) -> (r: bool)
        ensures
            r == bit16(self@, 1),
    {
        (self.0 & (1u16 << 1u16)) != 0
    }

    /// Sets bit 1.
    pub fn with_hblank_flag(self, bit: bool) -> (r: Self)
        ensures
            r@ == set_bit16(self@, 1, bit),
    {
        if bit {
            DisplayStatusSetting(self.0 | (1u16 << 1u16))
        } else {
            DisplayStatusSetting(self.0 & !(1u16 << 1u16))
        }
    }

    /// The mask of bit 2.
    pub const VCOUNTER_FLAG_BIT: u16 = 0x0004u16;

    /// Bit 2.
    pub fn vcounter_flag(self) -> (r: bool)
        ensures
            r == bit16(self@, 2),
    {
        (self.0 & (1u16 << 2u16)) != 0
    }

    /// Sets bit 2.
    pub fn with_vcounter_flag(self, bit: bool) -> (r: Self)
        ensures
            r@ == set_bit16(self@, 2, bit),
    {
        if bit {
            DisplayStatusSetting(self.0 | (1u16 << 2u16))
        } else {
            DisplayStatusSetting(self.0 & !(1u16 << 2u16))
        }
    }

    /// The mask of bit 3.
    pub const VBLANK_IRQ_ENABLE_BIT: u16 = 0x0008u16;

    /// Bit 3.
    pub fn vblank_irq_enable(self) -> (r: bool)
        ensures
            r == bit16(self@, 3),
    {
        (self.0 & (1u16 << 3u16)) != 0
    }

    /// Sets bit 3.
    pub fn with_vblank_irq_enable(self, bit: bool) -> (r: Self)
        ensures
            r@ == set_bit16(self@, 3, bit),
    {
        if bit {
            DisplayStatusSetting(self.0 | (1u16 << 3u16))
        } else {
            DisplayStatusSetting(self.0 & !(1u16 << 3u16))
        }
    }

    /// The mask of bit 4.
    pub const HBLANK_IRQ_ENABLE_BIT: u16 = 0x0010u16;

    /// Bit 4.
    pub fn hblank_irq_enable(self) -> (r: bool)
        ensures
            r == bit16(self@, 4),
    {
        (self.0 & (1u16 << 4u16)) != 0
    }

    /// Sets bit 4.
    pub fn with_hblank_irq_enable(self, bit: bool) -> (r: Self)
        ensures
            r@ == set_bit16(self@, 4, bit),
    {
        if bit {
            DisplayStatusSetting(self.0 | (1u16 << 4u16))
        } else {
            DisplayStatusSetting(self.0 & !(1u16 << 4u16))
        }
    }

    /// The mask of bit 5.
    pub const VCOUNTER_IRQ_ENABLE_BIT: u16 = 0x0020u16;

    /// Bit 5.
    pub fn vcounter_irq_enable(self) -> (r: bool)
        ensures
            r == bit16(self@, 5),
    {
        (self.0 & (1u16 << 5u16)) != 0
    }

    /// Sets bit 5.
    pub fn with_vcounter_irq_enable(self, bit: bool) -> (r: Self)
        ensures
            r@ == set_bit16(self@, 5, bit),
    {
        if bit {
            DisplayStatusSetting(self.0 | (1u16 << 5u16))
        } else {
            DisplayStatusSetting(self.0 & !(1u16 << 5u16))
        }
    }

    /// The mask of bits 8-15.
    pub const VCOUNT_SETTING_MASK: u16 = 0xFF00u16;

    /// Bits 8-15, shifted down.
    pub fn vcount_setting(self) -> (r: u16)
        ensures
            r == (self@ & 0xFF00u16) >> 8u16,
    {
        (self.0 & 0xFF00u16) >> 8u16
    }

    /// Puts the low bits of `vcount_setting` into bits 8-15; the bits of
    /// `vcount_setting` that do not fit are dropped.
    pub fn with_vcount_setting(self, vcount_setting: u16) -> (r: Self)
        ensures
            r@ == (self@ & !0xFF00u16) | ((vcount_setting << 8u16) & 0xFF00u16),
    {
        DisplayStatusSetting((self.0 & !0xFF00u16) | ((vcount_setting << 8u16) & 0xFF00u16))
    }
}

/// Allows control of the Mosaic effect.
///
/// Values are the number of pixels to stretch each pixel by, minus 1.
#[derive(Debug, Copy, Clone, Default, PartialEq, Eq)]
pub struct MosaicSetting(pub u16);

impl View for MosaicSetting {
    type V = u16;

    /// The raw register bits.
    open spec fn view(&self) -> u16 {
        self.0
    }
}

impl MosaicSetting {
    /// Makes a new, zeroed value.
    pub fn new() -> (r: Self)
        ensures
            r@ == 0,
    {
        MosaicSetting(0)
    }

    /// The mask of bits 0-3.
    pub const BG_HORIZONTAL_INC_MASK: u16 = 0x000Fu16;

    /// Bits 0-3, shifted down.
    pub fn bg_horizontal_inc(self) -> (r: u16)
        ensures
            r == (self@ & 0x000Fu16) >> 0u16,
    {
        (self.0 & 0x000Fu16) >> 0u16
    }

    /// Puts the low bits of `bg_horizontal_inc` into bits 0-3; the bits of
    /// `bg_horizontal_inc` that do not fit are dropped.
    pub fn with_bg_horizontal_inc(self, bg_horizontal_inc: u16) -> (r: Self)
        ensures
            r@ == (self@ & !0x000Fu16) | ((bg_horizontal_inc << 0u16) & 0x000Fu16),
    {
        MosaicSetting((self.0 & !0x000Fu16) | ((bg_horizontal_inc << 0u16) & 0x000Fu16))
    }

    /// The mask of bits 4-7.
    pub const BG_VERTICAL_INC_MASK: u16 = 0x00F0u16;

    /// Bits 4-7, shifted down.
    pub fn bg_vertical_inc(self) -> (r: u16)
        ensures
            r == (self@ & 0x00F0u16) >> 4u16,
    {
        (self.0 & 0x00F0u16) >> 4u16
    }

    /// Puts the low bits of `bg_vertical_inc` into bits 4-7; the bits of
    /// `bg_vertical_inc` that do not fit are dropped.
    pub fn with_bg_vertical_inc(self, bg_vertical_inc: u16) -> (r: Self)
        ensures
            r@ == (self@ & !0x00F0u16) | ((bg_vertical_inc << 4u16) & 0x00F0u16),
    {
        MosaicSetting((self.0 & !0x00F0u16) | ((bg_vertical_inc << 4u16) & 0x00F0u16))
    }

    /// The mask of bits 8-11.
    pub const OBJ_HORIZONTAL_INC_MASK: u16 = 0x0F00u16;

    /// Bits 8-11, shifted down.
    pub fn obj_horizontal_inc(self) -> (r: u16)
        ensures
            r == (self@ & 0x0F00u16) >> 8u16,
    {
        (self.0 & 0x0F00u16) >> 8u16
    }

    /// Puts the low bits of `obj_horizontal_inc` into bits 8-11; the bits of
    /// `obj_horizontal_inc` that do not fit are dropped.
    pub fn with_obj_horizontal_inc(self, obj_horizontal_inc: u16) -> (r: Self)
        ensures
            r@ == (self@ & !0x0F00u16) | ((obj_horizontal_inc << 8u16) & 0x0F00u16),
    {
        MosaicSetting((self.0 & !0x0F00u16) | ((obj_horizontal_inc << 8u16) & 0x0F00u16))
    }

    /// The mask of bits 12-15.
    pub const OBJ_VERTICAL_INC_MASK: u16 = 0xF000u16;

    /// Bits 12-15, shifted down.
    pub fn obj_vertical_inc(self) -> (r: u16)
        ensures
            r == (self@ & 0xF000u16) >> 12u16,
    {
        (self.0 & 0xF000u16) >> 12u16
    }

    /// Puts the low bits of `obj_vertical_inc` into bits 12-15; the bits of
    /// `obj_vertical_inc` that do not fit are dropped.
    pub fn with_obj_vertical_inc(self, obj_vertical_inc: u16) -> (r: Self)
        ensures
            r@ == (self@ & !0xF000u16) | ((obj_vertical_inc << 12u16) & 0xF000u16),
    {
        MosaicSetting((self.0 & !0xF000u16) | ((obj_vertical_inc << 12u16) & 0xF000u16))
    }
}


/// Every [`DisplayMode`] is written as its hardware code, its number in the register:
/// `Mode0` 0, `Mode1` 1, `Mode2` 2, `Mode3` 3, `Mode4` 4, `Mode5` 5; distinct settings have
/// distinct codes, so a code read back names the setting that was written.
pub proof fn lemma_display_mode_codes(a: DisplayMode, b: DisplayMode)
    ensures
        a.raw() == (match a {
            DisplayMode::Mode0 => 0u16,
            DisplayMode::Mode1 => 1u16,
            DisplayMode::Mode2 => 2u16,
            DisplayMode::Mode3 => 3u16,
            DisplayMode::Mode4 => 4u16,
            DisplayMode::Mode5 => 5u16,
        }),
        a.raw() == b.raw() ==> a == b,
{
}

} // verus!
