//! The display control register's value type.
use vstd::prelude::*;
use vstd::std_specs::convert::FromSpecImpl;
use crate::bits::{bit16, set_bit16, field16, set_field16, group_bits, lemma_region3};
use crate::bitfrob_calls::{u16_get_bit, u16_with_bit, u16_get_region, u16_with_region};

verus! {

broadcast use group_bits;

/// The six video modes of the display.
#[derive(Debug, Clone, Copy, PartialEq, Eq, PartialOrd, Ord, Hash)]
pub enum VideoMode {
    VideoMode0,
    VideoMode1,
    VideoMode2,
    VideoMode3,
    VideoMode4,
    VideoMode5,
}

impl VideoMode {
    /// The variant's number within its field (before shifting into place).
    pub open spec fn index(self) -> u16 {
        match self {
            VideoMode::VideoMode0 => 0,
            VideoMode::VideoMode1 => 1,
            VideoMode::VideoMode2 => 2,
            VideoMode::VideoMode3 => 3,
            VideoMode::VideoMode4 => 4,
            VideoMode::VideoMode5 => 5,
        }
    }

    /// The bits this setting stands for in its register.
    pub open spec fn raw(self) -> u16 {
        (self.index() << 0u16) as u16
    }

    /// The bits this setting stands for in its register.
    pub fn to_u16(self) -> (r: u16)
        ensures
            r == self.raw(),
    {
        let i: u16 = match self {
            VideoMode::VideoMode0 => 0,
            VideoMode::VideoMode1 => 1,
            VideoMode::VideoMode2 => 2,
            VideoMode::VideoMode3 => 3,
            VideoMode::VideoMode4 => 4,
            VideoMode::VideoMode5 => 5,
        };
        i << 0u16
    }
}

impl Default for VideoMode {
    fn default() -> (r: Self)
        ensures
            r == VideoMode::VideoMode0,
    {
        VideoMode::VideoMode0
    }
}

/// The display control setting: video mode and which layers are shown.
#[derive(Debug, Clone, Copy, Default, PartialEq, Eq, PartialOrd, Ord, Hash)]
pub struct DisplayControl(u16);

impl View for DisplayControl {
    type V = u16;

    /// The raw register bits.
    closed spec fn view(&self) -> u16 {
        self.0
    }
}

impl DisplayControl {
    /// Makes a new, zeroed value.
    pub fn new() -> (r: Self)
        ensures
            r@ == 0,
    {
        DisplayControl(0)
    }

    pub fn video_mode(self) -> (r: VideoMode)
        requires
            field16(self@, 0, 2) < 6,
        ensures
            r.index() == field16(self@, 0, 2),
    {
        let v = u16_get_region(0, 2, self.0);
        proof {
            lemma_region3(self.0, 0);
        }
        if v == VideoMode::VideoMode0.to_u16() {
            VideoMode::VideoMode0
        } else if v == VideoMode::VideoMode1.to_u16() {
            VideoMode::VideoMode1
        } else if v == VideoMode::VideoMode2.to_u16() {
            VideoMode::VideoMode2
        } else if v == VideoMode::VideoMode3.to_u16() {
            VideoMode::VideoMode3
        } else if v == VideoMode::VideoMode4.to_u16() {
            VideoMode::VideoMode4
        } else {
            VideoMode::VideoMode5
        }
    }

    pub fn with_video_mode(self, v: VideoMode) -> (r: Self)
        ensures
            r@ == set_field16(self@, 0, 2, v.index()),
    {
        DisplayControl(u16_with_region(0, 2, self.0, v.to_u16()))
    }

    pub fn display_frame1(self) -> (r: bool)
        ensures
            r == bit16(self@, 4),
    {
        u16_get_bit(4, self.0)
    }

    pub fn with_display_frame1(self, b: bool) -> (r: Self)
        ensures
            r@ == set_bit16(self@, 4, b),
            bit16(r@, 4) == b,
    {
        DisplayControl(u16_with_bit(4, self.0, b))
    }

    pub fn hblank_oam_free(self) -> (r: bool)
        ensures
            r == bit16(self@, 5),
    {
        u16_get_bit(5, self.0)
    }

    pub fn with_hblank_oam_free(self, b: bool) -> (r: Self)
        ensures
            r@ == set_bit16(self@, 5, b),
            bit16(r@, 5) == b,
    {
        DisplayControl(u16_with_bit(5, self.0, b))
    }

    pub fn obj_vram_1d(self) -> (r: bool)
        ensures
            r == bit16(self@, 6),
    {
        u16_get_bit(6, self.0)
    }

    pub fn with_obj_vram_1d(self, b: bool) -> (r: Self)
        ensures
            r@ == set_bit16(self@, 6, b),
            bit16(r@, 6) == b,
    {
        DisplayControl(u16_with_bit(6, self.0, b))
    }

    pub fn forced_blank(self) -> (r: bool)
        ensures
            r == bit16(self@, 7),
    {
        u16_get_bit(7, self.0)
    }

    pub fn with_forced_blank(self, b: bool) -> (r: Self)
        ensures
            r@ == set_bit16(self@, 7, b),
            bit16(r@, 7) == b,
    {
        DisplayControl(u16_with_bit(7, self.0, b))
    }

    pub fn display_bg0(self) -> (r: bool)
        ensures
            r == bit16(self@, 8),
    {
        u16_get_bit(8, self.0)
    }

    pub fn with_display_bg0(self, b: bool) -> (r: Self)
        ensures
            r@ == set_bit16(self@, 8, b),
            bit16(r@, 8) == b,
    {
        DisplayControl(u16_with_bit(8, self.0, b))
    }

    pub fn display_bg1(self) -> (r: bool)
        ensures
            r == bit16(self@, 9),
    {
        u16_get_bit(9, self.0)
    }

    pub fn with_display_bg1(self, b: bool) -> (r: Self)
        ensures
            r@ == set_bit16(self@, 9, b),
            bit16(r@, 9) == b,
    {
        DisplayControl(u16_with_bit(9, self.0, b))
    }

    pub fn display_bg2(self) -> (r: bool)
        ensures
            r == bit16(self@, 10),
    {
        u16_get_bit(10, self.0)
    }

    pub fn with_display_bg2(self, b: bool) -> (r: Self)
        ensures
            r@ == set_bit16(self@, 10, b),
            bit16(r@, 10) == b,
    {
        DisplayControl(u16_with_bit(10, self.0, b))
    }

    pub fn display_bg3(self) -> (r: bool)
        ensures
            r == bit16(self@, 11),
    {
        u16_get_bit(11, self.0)
    }

    pub fn with_display_bg3(self, b: bool) -> (r: Self)
        ensures
            r@ == set_bit16(self@, 11, b),
            bit16(r@, 11) == b,
    {
        DisplayControl(u16_with_bit(11, self.0, b))
    }

    pub fn display_obj(self) -> (r: bool)
        ensures
            r == bit16(self@, 12),
    {
        u16_get_bit(12, self.0)
    }

    pub fn with_display_obj(self, b: bool) -> (r: Self)
        ensures
            r@ == set_bit16(self@, 12, b),
            bit16(r@, 12) == b,
    {
        DisplayControl(u16_with_bit(12, self.0, b))
    }

    pub fn display_win0(self) -> (r: bool)
        ensures
            r == bit16(self@, 13),
    {
        u16_get_bit(13, self.0)
    }

    pub fn with_display_win0(self, b: bool) -> (r: Self)
        ensures
            r@ == set_bit16(self@, 13, b),
            bit16(r@, 13) == b,
    {
        DisplayControl(u16_with_bit(13, self.0, b))
    }

    pub fn display_win1(self) -> (r: bool)
        ensures
            r == bit16(self@, 14),
    {
        u16_get_bit(14, self.0)
    }

    pub fn with_display_win1(self, b: bool) -> (r: Self)
        ensures
            r@ == set_bit16(self@, 14, b),
            bit16(r@, 14) == b,
    {
        DisplayControl(u16_with_bit(14, self.0, b))
    }

    pub fn display_obj_win(self) -> (r: bool)
        ensures
            r == bit16(self@, 15),
    {
        u16_get_bit(15, self.0)
    }

    pub fn with_display_obj_win(self, b: bool) -> (r: Self)
        ensures
            r@ == set_bit16(self@, 15, b),
            bit16(r@, 15) == b,
    {
        DisplayControl(u16_with_bit(15, self.0, b))
    }
}

impl DisplayControl {
    /// The value holding the raw bits `bits`.
    pub closed spec fn new_spec(bits: u16) -> Self {
        DisplayControl(bits)
    }
}

/// A raw display control register value.
impl From<u16> for DisplayControl {
    fn from(bits: u16) -> (r: Self)
        ensures
            r@ == bits,
    {
        DisplayControl(bits)
    }
}

impl FromSpecImpl<u16> for DisplayControl {
    open spec fn obeys_from_spec() -> bool {
        true
    }

    open spec fn from_spec(bits: u16) -> Self {
        DisplayControl::new_spec(bits)
    }
}

/// The raw bits of a display control value, as the register holds them.
impl From<DisplayControl> for u16 {
    fn from(d: DisplayControl) -> (r: Self)
        ensures
            r == d@,
    {
        d.0
    }
}

impl FromSpecImpl<DisplayControl> for u16 {
    open spec fn obeys_from_spec() -> bool {
        true
    }

    open spec fn from_spec(d: DisplayControl) -> Self {
        d@
    }
}


/// Every [`VideoMode`] is written as its hardware code, its number within its register field:
/// `VideoMode0` 0, `VideoMode1` 1, `VideoMode2` 2, `VideoMode3` 3, `VideoMode4` 4, `VideoMode5` 5; distinct settings have
/// distinct codes, so a code read back names the setting that was written.
pub proof fn lemma_video_mode_codes(a: VideoMode, b: VideoMode)
    ensures
        a.index() == (match a {
            VideoMode::VideoMode0 => 0u16,
            VideoMode::VideoMode1 => 1u16,
            VideoMode::VideoMode2 => 2u16,
            VideoMode::VideoMode3 => 3u16,
            VideoMode::VideoMode4 => 4u16,
            VideoMode::VideoMode5 => 5u16,
        }),
        a.index() == b.index() ==> a == b,
{
}

} // verus!
