//! The window registers.
use vstd::prelude::*;
use crate::bits::bit16;
use crate::bits::set_bit16;

verus! {

/// Window 0 horizontal dimensions. Write-only.
pub const WIN0H: usize = 0x400_0040;

/// Window 1 horizontal dimensions. Write-only.
pub const WIN1H: usize = 0x400_0042;

/// Window 0 vertical dimensions. Write-only.
pub const WIN0V: usize = 0x400_0044;

/// Window 1 vertical dimensions. Write-only.
pub const WIN1V: usize = 0x400_0046;

/// Control of the inside of the windows. Read/Write.
pub const WININ: usize = 0x400_0048;

/// Control of the outside of the windows and of the object window. Read/Write.
pub const WINOUT: usize = 0x400_004A;

/// The left and right edges of a window.
#[derive(Debug, Copy, Clone, Default, PartialEq, Eq)]
pub struct HorizontalWindowSetting(pub u16);

impl View for HorizontalWindowSetting {
    type V = u16;

    /// The raw register bits.
    open spec fn view(&self) -> u16 {
        self.0
    }
}

impl HorizontalWindowSetting {
    /// Makes a new, zeroed value.
    pub fn new() -> (r: Self)
        ensures
            r@ == 0,
    {
        HorizontalWindowSetting(0)
    }

    /// The mask of bits 0-7.
    pub const COL_END_MASK: u16 = 0x00FFu16;

    /// Bits 0-7, shifted down.
    pub fn col_end(self) -> (r: u16)
        ensures
            r == (self@ & 0x00FFu16) >> 0u16,
    {
        (self.0 & 0x00FFu16) >> 0u16
    }

    /// Puts the low bits of `col_end` into bits 0-7; the bits of
    /// `col_end` that do not fit are dropped.
    pub fn with_col_end(self, col_end: u16) -> (r: Self)
        ensures
            r@ == (self@ & !0x00FFu16) | ((col_end << 0u16) & 0x00FFu16),
    {
        HorizontalWindowSetting((self.0 & !0x00FFu16) | ((col_end << 0u16) & 0x00FFu16))
    }

    /// The mask of bits 8-15.
    pub const COL_START_MASK: u16 = 0xFF00u16;

    /// Bits 8-15, shifted down.
    pub fn col_start(self) -> (r: u16)
        ensures
            r == (self@ & 0xFF00u16) >> 8u16,
    {
        (self.0 & 0xFF00u16) >> 8u16
    }

    /// Puts the low bits of `col_start` into bits 8-15; the bits of
    /// `col_start` that do not fit are dropped.
    pub fn with_col_start(self, col_start: u16) -> (r: Self)
        ensures
            r@ == (self@ & !0xFF00u16) | ((col_start << 8u16) & 0xFF00u16),
    {
        HorizontalWindowSetting((self.0 & !0xFF00u16) | ((col_start << 8u16) & 0xFF00u16))
    }
}

/// The top and bottom edges of a window.
#[derive(Debug, Copy, Clone, Default, PartialEq, Eq)]
pub struct VerticalWindowSetting(pub u16);

impl View for VerticalWindowSetting {
    type V = u16;

    /// The raw register bits.
    open spec fn view(&self) -> u16 {
        self.0
    }
}

impl VerticalWindowSetting {
    /// Makes a new, zeroed value.
    pub fn new() -> (r: Self)
        ensures
            r@ == 0,
    {
        VerticalWindowSetting(0)
    }

    /// The mask of bits 0-7.
    pub const ROW_END_MASK: u16 = 0x00FFu16;

    /// Bits 0-7, shifted down.
    pub fn row_end(self) -> (r: u16)
        ensures
            r == (self@ & 0x00FFu16) >> 0u16,
    {
        (self.0 & 0x00FFu16) >> 0u16
    }

    /// Puts the low bits of `row_end` into bits 0-7; the bits of
    /// `row_end` that do not fit are dropped.
    pub fn with_row_end(self, row_end: u16) -> (r: Self)
        ensures
            r@ == (self@ & !0x00FFu16) | ((row_end << 0u16) & 0x00FFu16),
    {
        VerticalWindowSetting((self.0 & !0x00FFu16) | ((row_end << 0u16) & 0x00FFu16))
    }

    /// The mask of bits 8-15.
    pub const ROW_START_MASK: u16 = 0xFF00u16;

    /// Bits 8-15, shifted down.
    pub fn row_start(self) -> (r: u16)
        ensures
            r == (self@ & 0xFF00u16) >> 8u16,
    {
        (self.0 & 0xFF00u16) >> 8u16
    }

    /// Puts the low bits of `row_start` into bits 8-15; the bits of
    /// `row_start` that do not fit are dropped.
    pub fn with_row_start(self, row_start: u16) -> (r: Self)
        ensures
            r@ == (self@ & !0xFF00u16) | ((row_start << 8u16) & 0xFF00u16),
    {
        VerticalWindowSetting((self.0 & !0xFF00u16) | ((row_start << 8u16) & 0xFF00u16))
    }
}

/// What is shown inside windows 0 and 1.
#[derive(Debug, Copy, Clone, Default, PartialEq, Eq)]
pub struct InsideWindowSetting(pub u16);

impl View for InsideWindowSetting {
    type V = u16;

    /// The raw register bits.
    open spec fn view(&self) -> u16 {
        self.0
    }
}

impl InsideWindowSetting {
    /// Makes a new, zeroed value.
    pub fn new() -> (r: Self)
        ensures
            r@ == 0,
    {
        InsideWindowSetting(0)
    }

    /// The mask of bit 0.
    pub const WIN0_BG0_BIT: u16 = 0x0001u16;

    /// Bit 0.
    pub fn win0_bg0(self) -> (r: bool)
        ensures
            r == bit16(self@, 0),
    {
        (self.0 & (1u16 << 0u16)) != 0
    }

    /// Sets bit 0.
    pub fn with_win0_bg0(self, bit: bool) -> (r: Self)
        ensures
            r@ == set_bit16(self@, 0, bit),
    {
        if bit {
            InsideWindowSetting(self.0 | (1u16 << 0u16))
        } else {
            InsideWindowSetting(self.0 & !(1u16 << 0u16))
        }
    }

    /// The mask of bit 1.
    pub const WIN0_BG1_BIT: u16 = 0x0002u16;

    /// Bit 1.
    pub fn win0_bg1(self) -> (r: bool)
        ensures
            r == bit16(self@, 1),
    {
        (self.0 & (1u16 << 1u16)) != 0
    }

    /// Sets bit 1.
    pub fn with_win0_bg1(self, bit: bool) -> (r: Self)
        ensures
            r@ == set_bit16(self@, 1, bit),
    {
        if bit {
            InsideWindowSetting(self.0 | (1u16 << 1u16))
        } else {
            InsideWindowSetting(self.0 & !(1u16 << 1u16))
        }
    }

    /// The mask of bit 2.
    pub const WIN0_BG2_BIT: u16 = 0x0004u16;

    /// Bit 2.
    pub fn win0_bg2(self) -> (r: bool)
        ensures
            r == bit16(self@, 2),
    {
        (self.0 & (1u16 << 2u16)) != 0
    }

    /// Sets bit 2.
    pub fn with_win0_bg2(self, bit: bool) -> (r: Self)
        ensures
            r@ == set_bit16(self@, 2, bit),
    {
        if bit {
            InsideWindowSetting(self.0 | (1u16 << 2u16))
        } else {
            InsideWindowSetting(self.0 & !(1u16 << 2u16))
        }
    }

    /// The mask of bit 3.
    pub const WIN0_BG3_BIT: u16 = 0x0008u16;

    /// Bit 3.
    pub fn win0_bg3(self) -> (r: bool)
        ensures
            r == bit16(self@, 3),
    {
        (self.0 & (1u16 << 3u16)) != 0
    }

    /// Sets bit 3.
    pub fn with_win0_bg3(self, bit: bool) -> (r: Self)
        ensures
            r@ == set_bit16(self@, 3, bit),
    {
        if bit {
            InsideWindowSetting(self.0 | (1u16 << 3u16))
        } else {
            InsideWindowSetting(self.0 & !(1u16 << 3u16))
        }
    }

    /// The mask of bit 4.
    pub const WIN0_OBJ_BIT: u16 = 0x0010u16;

    /// Bit 4.
    pub fn win0_obj(self) -> (r: bool)
        ensures
            r == bit16(self@, 4),
    {
        (self.0 & (1u16 << 4u16)) != 0
    }

    /// Sets bit 4.
    pub fn with_win0_obj(self, bit: bool) -> (r: Self)
        ensures
            r@ == set_bit16(self@, 4, bit),
    {
        if bit {
            InsideWindowSetting(self.0 | (1u16 << 4u16))
        } else {
            InsideWindowSetting(self.0 & !(1u16 << 4u16))
        }
    }

    /// The mask of bit 5.
    pub const WIN0_COLOR_SPECIAL_BIT: u16 = 0x0020u16;

    /// Bit 5.
    pub fn win0_color_special(self) -> (r: bool)
        ensures
            r == bit16(self@, 5),
    {
        (self.0 & (1u16 << 5u16)) != 0
    }

    /// Sets bit 5.
    pub fn with_win0_color_special(self, bit: bool) -> (r: Self)
        ensures
            r@ == set_bit16(self@, 5, bit),
    {
        if bit {
            InsideWindowSetting(self.0 | (1u16 << 5u16))
        } else {
            InsideWindowSetting(self.0 & !(1u16 << 5u16))
        }
    }

    /// The mask of bit 8.
    pub const WIN1_BG0_BIT: u16 = 0x0100u16;

    /// Bit 8.
    pub fn win1_bg0(self) -> (r: bool)
        ensures
            r == bit16(self@, 8),
    {
        (self.0 & (1u16 << 8u16)) != 0
    }

    /// Sets bit 8.
    pub fn with_win1_bg0(self, bit: bool) -> (r: Self)
        ensures
            r@ == set_bit16(self@, 8, bit),
    {
        if bit {
            InsideWindowSetting(self.0 | (1u16 << 8u16))
        } else {
            InsideWindowSetting(self.0 & !(1u16 << 8u16))
        }
    }

    /// The mask of bit 9.
    pub const WIN1_BG1_BIT: u16 = 0x0200u16;

    /// Bit 9.
    pub fn win1_bg1(self) -> (r: bool)
        ensures
            r == bit16(self@, 9),
    {
        (self.0 & (1u16 << 9u16)) != 0
    }

    /// Sets bit 9.
    pub fn with_win1_bg1(self, bit: bool) -> (r: Self)
        ensures
            r@ == set_bit16(self@, 9, bit),
    {
        if bit {
            InsideWindowSetting(self.0 | (1u16 << 9u16))
        } else {
            InsideWindowSetting(self.0 & !(1u16 << 9u16))
        }
    }

    /// The mask of bit 10.
    pub const WIN1_BG2_BIT: u16 = 0x0400u16;

    /// Bit 10.
    pub fn win1_bg2(self) -> (r: bool)
        ensures
            r == bit16(self@, 10),
    {
        (self.0 & (1u16 << 10u16)) != 0
    }

    /// Sets bit 10.
    pub fn with_win1_bg2(self, bit: bool) -> (r: Self)
        ensures
            r@ == set_bit16(self@, 10, bit),
    {
        if bit {
            InsideWindowSetting(self.0 | (1u16 << 10u16))
        } else {
            InsideWindowSetting(self.0 & !(1u16 << 10u16))
        }
    }

    /// The mask of bit 11.
    pub const WIN1_BG3_BIT: u16 = 0x0800u16;

    /// Bit 11.
    pub fn win1_bg3(self) -> (r: bool)
        ensures
            r == bit16(self@, 11),
    {
        (self.0 & (1u16 << 11u16)) != 0
    }

    /// Sets bit 11.
    pub fn with_win1_bg3(self, bit: bool) -> (r: Self)
        ensures
            r@ == set_bit16(self@, 11, bit),
    {
        if bit {
            InsideWindowSetting(self.0 | (1u16 << 11u16))
        } else {
            InsideWindowSetting(self.0 & !(1u16 << 11u16))
        }
    }

    /// The mask of bit 12.
    pub const WIN1_OBJ_BIT: u16 = 0x1000u16;

    /// Bit 12.
    pub fn win1_obj(self) -> (r: bool)
        ensures
            r == bit16(self@, 12),
    {
        (self.0 & (1u16 << 12u16)) != 0
    }

    /// Sets bit 12.
    pub fn with_win1_obj(self, bit: bool) -> (r: Self)
        ensures
            r@ == set_bit16(self@, 12, bit),
    {
        if bit {
            InsideWindowSetting(self.0 | (1u16 << 12u16))
        } else {
            InsideWindowSetting(self.0 & !(1u16 << 12u16))
        }
    }

    /// The mask of bit 13.
    pub const WIN1_COLOR_SPECIAL_BIT: u16 = 0x2000u16;

    /// Bit 13.
    pub fn win1_color_special(self) -> (r: bool)
        ensures
            r == bit16(self@, 13),
    {
        (self.0 & (1u16 << 13u16)) != 0
    }

    /// Sets bit 13.
    pub fn with_win1_color_special(self, bit: bool) -> (r: Self)
        ensures
            r@ == set_bit16(self@, 13, bit),
    {
        if bit {
            InsideWindowSetting(self.0 | (1u16 << 13u16))
        } else {
            InsideWindowSetting(self.0 & !(1u16 << 13u16))
        }
    }
}

/// What is shown outside the windows and inside the object window.
#[derive(Debug, Copy, Clone, Default, PartialEq, Eq)]
pub struct OutsideWindowSetting(pub u16);

impl View for OutsideWindowSetting {
    type V = u16;

    /// The raw register bits.
    open spec fn view(&self) -> u16 {
        self.0
    }
}

impl OutsideWindowSetting {
    /// Makes a new, zeroed value.
    pub fn new() -> (r: Self)
        ensures
            r@ == 0,
    {
        OutsideWindowSetting(0)
    }

    /// The mask of bit 0.
    pub const OUTSIDE_BG0_BIT: u16 = 0x0001u16;

    /// Bit 0.
    pub fn outside_bg0(self) -> (r: bool)
        ensures
            r == bit16(self@, 0),
    {
        (self.0 & (1u16 << 0u16)) != 0
    }

    /// Sets bit 0.
    pub fn with_outside_bg0(self, bit: bool) -> (r: Self)
        ensures
            r@ == set_bit16(self@, 0, bit),
    {
        if bit {
            OutsideWindowSetting(self.0 | (1u16 << 0u16))
        } else {
            OutsideWindowSetting(self.0 & !(1u16 << 0u16))
        }
    }

    /// The mask of bit 1.
    pub const OUTSIDE_BG1_BIT: u16 = 0x0002u16;

    /// Bit 1.
    pub fn outside_bg1(self) -> (r: bool)
        ensures
            r == bit16(self@, 1),
    {
        (self.0 & (1u16 << 1u16)) != 0
    }

    /// Sets bit 1.
    pub fn with_outside_bg1(self, bit: bool) -> (r: Self)
        ensures
            r@ == set_bit16(self@, 1, bit),
    {
        if bit {
            OutsideWindowSetting(self.0 | (1u16 << 1u16))
        } else {
            OutsideWindowSetting(self.0 & !(1u16 << 1u16))
        }
    }

    /// The mask of bit 2.
    pub const OUTSIDE_BG2_BIT: u16 = 0x0004u16;

    /// Bit 2.
    pub fn outside_bg2(self) -> (r: bool)
        ensures
            r == bit16(self@, 2),
    {
        (self.0 & (1u16 << 2u16)) != 0
    }

    /// Sets bit 2.
    pub fn with_outside_bg2(self, bit: bool) -> (r: Self)
        ensures
            r@ == set_bit16(self@, 2, bit),
    {
        if bit {
            OutsideWindowSetting(self.0 | (1u16 << 2u16))
        } else {
            OutsideWindowSetting(self.0 & !(1u16 << 2u16))
        }
    }

    /// The mask of bit 3.
    pub const OUTSIDE_BG3_BIT: u16 = 0x0008u16;

    /// Bit 3.
    pub fn outside_bg3(self) -> (r: bool)
        ensures
            r == bit16(self@, 3),
    {
        (self.0 & (1u16 << 3u16)) != 0
    }

    /// Sets bit 3.
    pub fn with_outside_bg3(self, bit: bool) -> (r: Self)
        ensures
            r@ == set_bit16(self@, 3, bit),
    {
        if bit {
            OutsideWindowSetting(self.0 | (1u16 << 3u16))
        } else {
            OutsideWindowSetting(self.0 & !(1u16 << 3u16))
        }
    }

    /// The mask of bit 4.
    pub const OUTSIDE_OBJ_BIT: u16 = 0x0010u16;

    /// Bit 4.
    pub fn outside_obj(self) -> (r: bool)
        ensures
            r == bit16(self@, 4),
    {
        (self.0 & (1u16 << 4u16)) != 0
    }

    /// Sets bit 4.
    pub fn with_outside_obj(self, bit: bool) -> (r: Self)
        ensures
            r@ == set_bit16(self@, 4, bit),
    {
        if bit {
            OutsideWindowSetting(self.0 | (1u16 << 4u16))
        } else {
            OutsideWindowSetting(self.0 & !(1u16 << 4u16))
        }
    }

    /// The mask of bit 5.
    pub const OUTSIDE_COLOR_SPECIAL_BIT: u16 = 0x0020u16;

    /// Bit 5.
    pub fn outside_color_special(self) -> (r: bool)
        ensures
            r == bit16(self@, 5),
    {
        (self.0 & (1u16 << 5u16)) != 0
    }

    /// Sets bit 5.
    pub fn with_outside_color_special(self, bit: bool) -> (r: Self)
        ensures
            r@ == set_bit16(self@, 5, bit),
    {
        if bit {
            OutsideWindowSetting(self.0 | (1u16 << 5u16))
        } else {
            OutsideWindowSetting(self.0 & !(1u16 << 5u16))
        }
    }

    /// The mask of bit 8.
    pub const OBJ_WIN_BG0_BIT: u16 = 0x0100u16;

    /// Bit 8.
    pub fn obj_win_bg0(self) -> (r: bool)
        ensures
            r == bit16(self@, 8),
    {
        (self.0 & (1u16 << 8u16)) != 0
    }

    /// Sets bit 8.
    pub fn with_obj_win_bg0(self, bit: bool) -> (r: Self)
        ensures
            r@ == set_bit16(self@, 8, bit),
    {
        if bit {
            OutsideWindowSetting(self.0 | (1u16 << 8u16))
        } else {
            OutsideWindowSetting(self.0 & !(1u16 << 8u16))
        }
    }

    /// The mask of bit 9.
    pub const OBJ_WIN_BG1_BIT: u16 = 0x0200u16;

    /// Bit 9.
    pub fn obj_win_bg1(self) -> (r: bool)
        ensures
            r == bit16(self@, 9),
    {
        (self.0 & (1u16 << 9u16)) != 0
    }

    /// Sets bit 9.
    pub fn with_obj_win_bg1(self, bit: bool) -> (r: Self)
        ensures
            r@ == set_bit16(self@, 9, bit),
    {
        if bit {
            OutsideWindowSetting(self.0 | (1u16 << 9u16))
        } else {
            OutsideWindowSetting(self.0 & !(1u16 << 9u16))
        }
    }

    /// The mask of bit 10.
    pub const OBJ_WIN_BG2_BIT: u16 = 0x0400u16;

    /// Bit 10.
    pub fn obj_win_bg2(self) -> (r: bool)
        ensures
            r == bit16(self@, 10),
    {
        (self.0 & (1u16 << 10u16)) != 0
    }

    /// Sets bit 10.
    pub fn with_obj_win_bg2(self, bit: bool) -> (r: Self)
        ensures
            r@ == set_bit16(self@, 10, bit),
    {
        if bit {
            OutsideWindowSetting(self.0 | (1u16 << 10u16))
        } else {
            OutsideWindowSetting(self.0 & !(1u16 << 10u16))
        }
    }

    /// The mask of bit 11.
    pub const OBJ_WIN_BG3_BIT: u16 = 0x0800u16;

    /// Bit 11.
    pub fn obj_win_bg3(self) -> (r: bool)
        ensures
            r == bit16(self@, 11),
    {
        (self.0 & (1u16 << 11u16)) != 0
    }

    /// Sets bit 11.
    pub fn with_obj_win_bg3(self, bit: bool) -> (r: Self)
        ensures
            r@ == set_bit16(self@, 11, bit),
    {
        if bit {
            OutsideWindowSetting(self.0 | (1u16 << 11u16))
        } else {
            OutsideWindowSetting(self.0 & !(1u16 << 11u16))
        }
    }

    /// The mask of bit 12.
    pub const OBJ_WIN_OBJ_BIT: u16 = 0x1000u16;

    /// Bit 12.
    pub fn obj_win_obj(self) -> (r: bool)
        ensures
            r == bit16(self@, 12),
    {
        (self.0 & (1u16 << 12u16)) != 0
    }

    /// Sets bit 12.
    pub fn with_obj_win_obj(self, bit: bool) -> (r: Self)
        ensures
            r@ == set_bit16(self@, 12, bit),
    {
        if bit {
            OutsideWindowSetting(self.0 | (1u16 << 12u16))
        } else {
            OutsideWindowSetting(self.0 & !(1u16 << 12u16))
        }
    }

    /// The mask of bit 13.
    pub const OBJ_WIN_COLOR_SPECIAL_BIT: u16 = 0x2000u16;

    /// Bit 13.
    pub fn obj_win_color_special(self) -> (r: bool)
        ensures
            r == bit16(self@, 13),
    {
        (self.0 & (1u16 << 13u16)) != 0
    }

    /// Sets bit 13.
    pub fn with_obj_win_color_special(self, bit: bool) -> (r: Self)
        ensures
            r@ == set_bit16(self@, 13, bit),
    {
        if bit {
            OutsideWindowSetting(self.0 | (1u16 << 13u16))
        } else {
            OutsideWindowSetting(self.0 & !(1u16 << 13u16))
        }
    }
}

} // verus!
