//! Keypad (button) reading.
use vstd::prelude::*;
use crate::bits::{bit16, group_bits};
use crate::bitfrob_calls::{u16_get_bit};

verus! {

broadcast use group_bits;

/// Keypad input state, in the hardware's low-active form: a 0 bit is a pressed key.
#[derive(Clone, Copy, Default)]
pub struct KeyInput(pub u16);

impl View for KeyInput {
    type V = u16;

    /// The raw register bits.
    open spec fn view(&self) -> u16 {
        self.0
    }
}

impl KeyInput {
    /// If `a` is pressed (left primary button)
    pub fn a(self) -> (r: bool)
        ensures
            r == !bit16(self@, 0),
    {
        !u16_get_bit(0, self.0)
    }

    /// If `b` is pressed (right primary button)
    pub fn b(self) -> (r: bool)
        ensures
            r == !bit16(self@, 1),
    {
        !u16_get_bit(1, self.0)
    }

    /// If `select` is pressed (lower/left secondary button)
    pub fn select(self) -> (r: bool)
        ensures
            r == !bit16(self@, 2),
    {
        !u16_get_bit(2, self.0)
    }

    /// If `start` is pressed (upper/right secondary button)
    pub fn start(self) -> (r: bool)
        ensures
            r == !bit16(self@, 3),
    {
        !u16_get_bit(3, self.0)
    }

    /// If `right` is pressed (d-pad)
    pub fn right(self) -> (r: bool)
        ensures
            r == !bit16(self@, 4),
    {
        !u16_get_bit(4, self.0)
    }

    /// If `left` is pressed (d-pad)
    pub fn left(self) -> (r: bool)
        ensures
            r == !bit16(self@, 5),
    {
        !u16_get_bit(5, self.0)
    }

    /// If `up` is pressed (d-pad)
    pub fn up(self) -> (r: bool)
        ensures
            r == !bit16(self@, 6),
    {
        !u16_get_bit(6, self.0)
    }

    /// If `down` is pressed (d-pad)
    pub fn down(self) -> (r: bool)
        ensures
            r == !bit16(self@, 7),
    {
        !u16_get_bit(7, self.0)
    }

    /// If `r` is pressed (right shoulder button)
    pub fn r(self) -> (r: bool)
        ensures
            r == !bit16(self@, 8),
    {
        !u16_get_bit(8, self.0)
    }

    /// If `l` is pressed (left shoulder button)
    pub fn l(self) -> (r: bool)
        ensures
            r == !bit16(self@, 9),
    {
        !u16_get_bit(9, self.0)
    }

    /// Delta X of the d-pad. right +1, left -1.
    pub fn dx(self) -> (r: i8)
        ensures
            r == if !bit16(self@, 4) {
                1
            } else if !bit16(self@, 5) {
                -1
            } else {
                0
            },
    {
        if self.right() {
            1
        } else if self.left() {
            -1
        } else {
            0
        }
    }

    /// Delta Y of the d-pad. up +1, down -1.
    pub fn dy(self) -> (r: i8)
        ensures
            r == if !bit16(self@, 6) {
                1
            } else if !bit16(self@, 7) {
                -1
            } else {
                0
            },
    {
        if self.up() {
            1
        } else if self.down() {
            -1
        } else {
            0
        }
    }
}

} // verus!
