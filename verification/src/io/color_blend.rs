//! The color special effect registers.
use vstd::prelude::*;
use crate::bits::bit16;
use crate::bits::set_bit16;

verus! {

/// Color Special Effects Selection. Read/Write.
pub const BLDCNT: usize = 0x400_0050;

/// Alpha Blending Coefficients. Read/Write.
pub const BLDALPHA: usize = 0x400_0052;

/// Brightness (Fade-In/Out) Coefficient. Write-only.
pub const BLDY: usize = 0x400_0054;

/// The special effect that blending applies.
#[derive(Debug, Clone, Copy, PartialEq, Eq)]
pub enum ColorSpecialEffect {
    /// No special effect
    NoEffect,
    /// Blends the first and second targets
    AlphaBlending,
    /// Fades the first targets to white
    BrightnessIncrease,
    /// Fades the first targets to black
    BrightnessDecrease,
}

impl ColorSpecialEffect {
    /// The setting's number in its register field.
    pub open spec fn raw(self) -> u16 {
        match self {
            ColorSpecialEffect::NoEffect => 0,
            ColorSpecialEffect::AlphaBlending => 1,
            ColorSpecialEffect::BrightnessIncrease => 2,
            ColorSpecialEffect::BrightnessDecrease => 3,
        }
    }

    /// The setting's number in its register field.
    pub fn to_u16(self) -> (r: u16)
        ensures
            r == self.raw(),
    {
        match self {
            ColorSpecialEffect::NoEffect => 0,
            ColorSpecialEffect::AlphaBlending => 1,
            ColorSpecialEffect::BrightnessIncrease => 2,
            ColorSpecialEffect::BrightnessDecrease => 3,
        }
    }
}

/// Which layers take part in the special effect, and which effect.
#[derive(Debug, Copy, Clone, Default, PartialEq, Eq)]
pub struct ColorEffectSetting(pub u16);

impl View for ColorEffectSetting {
    type V = u16;

    /// The raw register bits.
    open spec fn view(&self) -> u16 {
        self.0
    }
}

impl ColorEffectSetting {
    /// Makes a new, zeroed value.
    pub fn new() -> (r: Self)
        ensures
            r@ == 0,
    {
        ColorEffectSetting(0)
    }

    /// The mask of bit 0.
    pub const BG0_1ST_TARGET_PIXEL_BIT: u16 = 0x0001u16;

    /// Bit 0.
    pub fn bg0_1st_target_pixel(self) -> (r: bool)
        ensures
            r == bit16(self@, 0),
    {
        (self.0 & (1u16 << 0u16)) != 0
    }

    /// Sets bit 0.
    pub fn with_bg0_1st_target_pixel(self, bit: bool) -> (r: Self)
        ensures
            r@ == set_bit16(self@, 0, bit),
    {
        if bit {
            ColorEffectSetting(self.0 | (1u16 << 0u16))
        } else {
            ColorEffectSetting(self.0 & !(1u16 << 0u16))
        }
    }

    /// The mask of bit 1.
    pub const BG1_1ST_TARGET_PIXEL_BIT: u16 = 0x0002u16;

    /// Bit 1.
    pub fn bg1_1st_target_pixel(self) -> (r: bool)
        ensures
            r == bit16(self@, 1),
    {
        (self.0 & (1u16 << 1u16)) != 0
    }

    /// Sets bit 1.
    pub fn with_bg1_1st_target_pixel(self, bit: bool) -> (r: Self)
        ensures
            r@ == set_bit16(self@, 1, bit),
    {
        if bit {
            ColorEffectSetting(self.0 | (1u16 << 1u16))
        } else {
            ColorEffectSetting(self.0 & !(1u16 << 1u16))
        }
    }

    /// The mask of bit 2.
    pub const BG2_1ST_TARGET_PIXEL_BIT: u16 = 0x0004u16;

    /// Bit 2.
    pub fn bg2_1st_target_pixel(self) -> (r: bool)
        ensures
            r == bit16(self@, 2),
    {
        (self.0 & (1u16 << 2u16)) != 0
    }

    /// Sets bit 2.
    pub fn with_bg2_1st_target_pixel(self, bit: bool) -> (r: Self)
        ensures
            r@ == set_bit16(self@, 2, bit),
    {
        if bit {
            ColorEffectSetting(self.0 | (1u16 << 2u16))
        } else {
            ColorEffectSetting(self.0 & !(1u16 << 2u16))
        }
    }

    /// The mask of bit 3.
    pub const BG3_1ST_TARGET_PIXEL_BIT: u16 = 0x0008u16;

    /// Bit 3.
    pub fn bg3_1st_target_pixel(self) -> (r: bool)
        ensures
            r == bit16(self@, 3),
    {
        (self.0 & (1u16 << 3u16)) != 0
    }

    /// Sets bit 3.
    pub fn with_bg3_1st_target_pixel(self, bit: bool) -> (r: Self)
        ensures
            r@ == set_bit16(self@, 3, bit),
    {
        if bit {
            ColorEffectSetting(self.0 | (1u16 << 3u16))
        } else {
            ColorEffectSetting(self.0 & !(1u16 << 3u16))
        }
    }

    /// The mask of bit 4.
    pub const OBJ_1ST_TARGET_PIXEL_BIT: u16 = 0x0010u16;

    /// Bit 4.
    pub fn obj_1st_target_pixel(self) -> (r: bool)
        ensures
            r == bit16(self@, 4),
    {
        (self.0 & (1u16 << 4u16)) != 0
    }

    /// Sets bit 4.
    pub fn with_obj_1st_target_pixel(self, bit: bool) -> (r: Self)
        ensures
            r@ == set_bit16(self@, 4, bit),
    {
        if bit {
            ColorEffectSetting(self.0 | (1u16 << 4u16))
        } else {
            ColorEffectSetting(self.0 & !(1u16 << 4u16))
        }
    }

    /// The mask of bit 5.
    pub const BACKDROP_1ST_TARGET_PIXEL_BIT: u16 = 0x0020u16;

    /// Bit 5.
    pub fn backdrop_1st_target_pixel(self) -> (r: bool)
        ensures
            r == bit16(self@, 5),
    {
        (self.0 & (1u16 << 5u16)) != 0
    }

    /// Sets bit 5.
    pub fn with_backdrop_1st_target_pixel(self, bit: bool) -> (r: Self)
        ensures
            r@ == set_bit16(self@, 5, bit),
    {
        if bit {
            ColorEffectSetting(self.0 | (1u16 << 5u16))
        } else {
            ColorEffectSetting(self.0 & !(1u16 << 5u16))
        }
    }

    /// The mask of bits 6-7.
    pub const COLOR_SPECIAL_EFFECT_MASK: u16 = 0x00C0u16;

    /// Bits 6-7, as a [`ColorSpecialEffect`].
    pub fn color_special_effect(self) -> (r: ColorSpecialEffect)
        ensures
            r.raw() == (self@ & 0x00C0u16) >> 6u16,
    {
        let raw: u16 = self.0;
        let v: u16 = (raw & 0x00C0u16) >> 6u16;
        assert(v < 4) by (bit_vector)
            requires
                v == (raw & 0x00C0u16) >> 6u16,
        ;
        if v == 0 {
            ColorSpecialEffect::NoEffect
        } else if v == 1 {
            ColorSpecialEffect::AlphaBlending
        } else if v == 2 {
            ColorSpecialEffect::BrightnessIncrease
        } else {
            ColorSpecialEffect::BrightnessDecrease
        }
    }

    /// Puts `color_special_effect` into bits 6-7.
    pub fn with_color_special_effect(self, color_special_effect: ColorSpecialEffect) -> (r: Self)
        ensures
            r@ == (self@ & !0x00C0u16) | ((color_special_effect.raw() << 6u16) & 0x00C0u16),
    {
        ColorEffectSetting((self.0 & !0x00C0u16) | ((color_special_effect.to_u16() << 6u16) & 0x00C0u16))
    }

    /// The mask of bit 8.
    pub const BG0_2ND_TARGET_PIXEL_BIT: u16 = 0x0100u16;

    /// Bit 8.
    pub fn bg0_2nd_target_pixel(self) -> (r: bool)
        ensures
            r == bit16(self@, 8),
    {
        (self.0 & (1u16 << 8u16)) != 0
    }

    /// Sets bit 8.
    pub fn with_bg0_2nd_target_pixel(self, bit: bool) -> (r: Self)
        ensures
            r@ == set_bit16(self@, 8, bit),
    {
        if bit {
            ColorEffectSetting(self.0 | (1u16 << 8u16))
        } else {
            ColorEffectSetting(self.0 & !(1u16 << 8u16))
        }
    }

    /// The mask of bit 9.
    pub const BG1_2ND_TARGET_PIXEL_BIT: u16 = 0x0200u16;

    /// Bit 9.
    pub fn bg1_2nd_target_pixel(self) -> (r: bool)
        ensures
            r == bit16(self@, 9),
    {
        (self.0 & (1u16 << 9u16)) != 0
    }

    /// Sets bit 9.
    pub fn with_bg1_2nd_target_pixel(self, bit: bool) -> (r: Self)
        ensures
            r@ == set_bit16(self@, 9, bit),
    {
        if bit {
            ColorEffectSetting(self.0 | (1u16 << 9u16))
        } else {
            ColorEffectSetting(self.0 & !(1u16 << 9u16))
        }
    }

    /// The mask of bit 10.
    pub const BG2_2ND_TARGET_PIXEL_BIT: u16 = 0x0400u16;

    /// Bit 10.
    pub fn bg2_2nd_target_pixel(self) -> (r: bool)
        ensures
            r == bit16(self@, 10),
    {
        (self.0 & (1u16 << 10u16)) != 0
    }

    /// Sets bit 10.
    pub fn with_bg2_2nd_target_pixel(self, bit: bool) -> (r: Self)
        ensures
            r@ == set_bit16(self@, 10, bit),
    {
        if bit {
            ColorEffectSetting(self.0 | (1u16 << 10u16))
        } else {
            ColorEffectSetting(self.0 & !(1u16 << 10u16))
        }
    }

    /// The mask of bit 11.
    pub const BG3_2ND_TARGET_PIXEL_BIT: u16 = 0x0800u16;

    /// Bit 11.
    pub fn bg3_2nd_target_pixel(self) -> (r: bool)
        ensures
            r == bit16(self@, 11),
    {
        (self.0 & (1u16 << 11u16)) != 0
    }

    /// Sets bit 11.
    pub fn with_bg3_2nd_target_pixel(self, bit: bool) -> (r: Self)
        ensures
            r@ == set_bit16(self@, 11, bit),
    {
        if bit {
            ColorEffectSetting(self.0 | (1u16 << 11u16))
        } else {
            ColorEffectSetting(self.0 & !(1u16 << 11u16))
        }
    }

    /// The mask of bit 12.
    pub const OBJ_2ND_TARGET_PIXEL_BIT: u16 = 0x1000u16;

    /// Bit 12.
    pub fn obj_2nd_target_pixel(self) -> (r: bool)
        ensures
            r == bit16(self@, 12),
    {
        (self.0 & (1u16 << 12u16)) != 0
    }

    /// Sets bit 12.
    pub fn with_obj_2nd_target_pixel(self, bit: bool) -> (r: Self)
        ensures
            r@ == set_bit16(self@, 12, bit),
    {
        if bit {
            ColorEffectSetting(self.0 | (1u16 << 12u16))
        } else {
            ColorEffectSetting(self.0 & !(1u16 << 12u16))
        }
    }

    /// The mask of bit 13.
    pub const BACKDROP_2ND_TARGET_PIXEL_BIT: u16 = 0x2000u16;

    /// Bit 13.
    pub fn backdrop_2nd_target_pixel(self) -> (r: bool)
        ensures
            r == bit16(self@, 13),
    {
        (self.0 & (1u16 << 13u16)) != 0
    }

    /// Sets bit 13.
    pub fn with_backdrop_2nd_target_pixel(self, bit: bool) -> (r: Self)
        ensures
            r@ == set_bit16(self@, 13, bit),
    {
        if bit {
            ColorEffectSetting(self.0 | (1u16 << 13u16))
        } else {
            ColorEffectSetting(self.0 & !(1u16 << 13u16))
        }
    }
}

/// The weights of the first and second targets in alpha blending.
#[derive(Debug, Copy, Clone, Default, PartialEq, Eq)]
pub struct AlphaBlendingSetting(pub u16);

impl View for AlphaBlendingSetting {
    type V = u16;

    /// The raw register bits.
    open spec fn view(&self) -> u16 {
        self.0
    }
}

impl AlphaBlendingSetting {
    /// Makes a new, zeroed value.
    pub fn new() -> (r: Self)
        ensures
            r@ == 0,
    {
        AlphaBlendingSetting(0)
    }

    /// The mask of bits 0-4.
    pub const EVA_COEFFICIENT_MASK: u16 = 0x001Fu16;

    /// Bits 0-4, shifted down.
    pub fn eva_coefficient(self) -> (r: u16)
        ensures
            r == (self@ & 0x001Fu16) >> 0u16,
    {
        (self.0 & 0x001Fu16) >> 0u16
    }

    /// Puts the low bits of `eva_coefficient` into bits 0-4; the bits of
    /// `eva_coefficient` that do not fit are dropped.
    pub fn with_eva_coefficient(self, eva_coefficient: u16) -> (r: Self)
        ensures
            r@ == (self@ & !0x001Fu16) | ((eva_coefficient << 0u16) & 0x001Fu16),
    {
        AlphaBlendingSetting((self.0 & !0x001Fu16) | ((eva_coefficient << 0u16) & 0x001Fu16))
    }

    /// The mask of bits 8-12.
    pub const EVB_COEFFICIENT_MASK: u16 = 0x1F00u16;

    /// Bits 8-12, shifted down.
    pub fn evb_coefficient(self) -> (r: u16)
        ensures
            r == (self@ & 0x1F00u16) >> 8u16,
    {
        (self.0 & 0x1F00u16) >> 8u16
    }

    /// Puts the low bits of `evb_coefficient` into bits 8-12; the bits of
    /// `evb_coefficient` that do not fit are dropped.
    pub fn with_evb_coefficient(self, evb_coefficient: u16) -> (r: Self)
        ensures
            r@ == (self@ & !0x1F00u16) | ((evb_coefficient << 8u16) & 0x1F00u16),
    {
        AlphaBlendingSetting((self.0 & !0x1F00u16) | ((evb_coefficient << 8u16) & 0x1F00u16))
    }
}

/// The strength of a brightness change.
#[derive(Debug, Copy, Clone, Default, PartialEq, Eq)]
pub struct BrightnessSetting(pub u32);

impl View for BrightnessSetting {
    type V = u32;

    /// The raw register bits.
    open spec fn view(&self) -> u32 {
        self.0
    }
}

impl BrightnessSetting {
    /// Makes a new, zeroed value.
    pub fn new() -> (r: Self)
        ensures
            r@ == 0,
    {
        BrightnessSetting(0)
    }

    /// The mask of bits 0-4.
    pub const EVY_COEFFICIENT_MASK: u32 = 0x0000001Fu32;

    /// Bits 0-4, shifted down.
    pub fn evy_coefficient(self) -> (r: u32)
        ensures
            r == (self@ & 0x0000001Fu32) >> 0u32,
    {
        (self.0 & 0x0000001Fu32) >> 0u32
    }

    /// Puts the low bits of `evy_coefficient` into bits 0-4; the bits of
    /// `evy_coefficient` that do not fit are dropped.
    pub fn with_evy_coefficient(self, evy_coefficient: u32) -> (r: Self)
        ensures
            r@ == (self@ & !0x0000001Fu32) | ((evy_coefficient << 0u32) & 0x0000001Fu32),
    {
        BrightnessSetting((self.0 & !0x0000001Fu32) | ((evy_coefficient << 0u32) & 0x0000001Fu32))
    }
}


/// Every [`ColorSpecialEffect`] is written as its hardware code, its number in the register:
/// `NoEffect` 0, `AlphaBlending` 1, `BrightnessIncrease` 2, `BrightnessDecrease` 3; distinct settings have
/// distinct codes, so a code read back names the setting that was written.
pub proof fn lemma_color_special_effect_codes(a: ColorSpecialEffect, b: ColorSpecialEffect)
    ensures
        a.raw() == (match a {
            ColorSpecialEffect::NoEffect => 0u16,
            ColorSpecialEffect::AlphaBlending => 1u16,
            ColorSpecialEffect::BrightnessIncrease => 2u16,
            ColorSpecialEffect::BrightnessDecrease => 3u16,
        }),
        a.raw() == b.raw() ==> a == b,
{
}

} // verus!
