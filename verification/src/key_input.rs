//! Key input values in the hardware's and in the usual convention.
use vstd::prelude::*;
use vstd::std_specs::convert::FromSpecImpl;
use crate::bits::{bit16, set_bit16, group_bits};
use crate::bitfrob_calls::{u16_get_bit, u16_with_bit};

verus! {

broadcast use group_bits;

/// Holds data for GBA keys using a "low-active" convention.
///
/// If a bit is 0 the key is "pressed", if a bit is 1 the key is "released".
///
/// This is how the hardware exposes the value, though it's often not so easy to
/// work with because usually we want 1 to be the "pressed" value. Convert it
/// into a [`Keys`] value, which uses the high-active convention.
#[derive(Debug, Clone, Copy, Default, PartialEq, Eq, PartialOrd, Ord, Hash)]
pub struct KeysLowActive(u16);

impl View for KeysLowActive {
    type V = u16;

    /// The raw register bits.
    closed spec fn view(&self) -> u16 {
        self.0
    }
}

/// Holds data for GBA keys using a "high-active" convention.
///
/// If a bit is 1 the key is "pressed", if a bit is 0 the key is "released".
#[derive(Debug, Clone, Copy, Default, PartialEq, Eq, PartialOrd, Ord, Hash)]
pub struct Keys(u16);

impl View for Keys {
    type V = u16;

    /// The raw register bits.
    closed spec fn view(&self) -> u16 {
        self.0
    }
}

impl Keys {
    /// Makes a new, zeroed value.
    pub fn new() -> (r: Self)
        ensures
            r@ == 0,
    {
        Keys(0)
    }

    pub fn a(self) -> (r: bool)
        ensures
            r == bit16(self@, 0),
    {
        u16_get_bit(0, self.0)
    }

    pub fn with_a(self, b: bool) -> (r: Self)
        ensures
            r@ == set_bit16(self@, 0, b),
            bit16(r@, 0) == b,
    {
        Keys(u16_with_bit(0, self.0, b))
    }

    pub fn b(self) -> (r: bool)
        ensures
            r == bit16(self@, 1),
    {
        u16_get_bit(1, self.0)
    }

    pub fn with_b(self, b: bool) -> (r: Self)
        ensures
            r@ == set_bit16(self@, 1, b),
            bit16(r@, 1) == b,
    {
        Keys(u16_with_bit(1, self.0, b))
    }

    pub fn select(self) -> (r: bool)
        ensures
            r == bit16(self@, 2),
    {
        u16_get_bit(2, self.0)
    }

    pub fn with_select(self, b: bool) -> (r: Self)
        ensures
            r@ == set_bit16(self@, 2, b),
            bit16(r@, 2) == b,
    {
        Keys(u16_with_bit(2, self.0, b))
    }

    pub fn start(self) -> (r: bool)
        ensures
            r == bit16(self@, 3),
    {
        u16_get_bit(3, self.0)
    }

    pub fn with_start(self, b: bool) -> (r: Self)
        ensures
            r@ == set_bit16(self@, 3, b),
            bit16(r@, 3) == b,
    {
        Keys(u16_with_bit(3, self.0, b))
    }

    pub fn right(self) -> (r: bool)
        ensures
            r == bit16(self@, 4),
    {
        u16_get_bit(4, self.0)
    }

    pub fn with_right(self, b: bool) -> (r: Self)
        ensures
            r@ == set_bit16(self@, 4, b),
            bit16(r@, 4) == b,
    {
        Keys(u16_with_bit(4, self.0, b))
    }

    pub fn left(self) -> (r: bool)
        ensures
            r == bit16(self@, 5),
    {
        u16_get_bit(5, self.0)
    }

    pub fn with_left(self, b: bool) -> (r: Self)
        ensures
            r@ == set_bit16(self@, 5, b),
            bit16(r@, 5) == b,
    {
        Keys(u16_with_bit(5, self.0, b))
    }

    pub fn up(self) -> (r: bool)
        ensures
            r == bit16(self@, 6),
    {
        u16_get_bit(6, self.0)
    }

    pub fn with_up(self, b: bool) -> (r: Self)
        ensures
            r@ == set_bit16(self@, 6, b),
            bit16(r@, 6) == b,
    {
        Keys(u16_with_bit(6, self.0, b))
    }

    pub fn down(self) -> (r: bool)
        ensures
            r == bit16(self@, 7),
    {
        u16_get_bit(7, self.0)
    }

    pub fn with_down(self, b: bool) -> (r: Self)
        ensures
            r@ == set_bit16(self@, 7, b),
            bit16(r@, 7) == b,
    {
        Keys(u16_with_bit(7, self.0, b))
    }

    pub fn r(self) -> (r: bool)
        ensures
            r == bit16(self@, 8),
    {
        u16_get_bit(8, self.0)
    }

    pub fn with_r(self, b: bool) -> (r: Self)
        ensures
            r@ == set_bit16(self@, 8, b),
            bit16(r@, 8) == b,
    {
        Keys(u16_with_bit(8, self.0, b))
    }

    pub fn l(self) -> (r: bool)
        ensures
            r == bit16(self@, 9),
    {
        u16_get_bit(9, self.0)
    }

    pub fn with_l(self, b: bool) -> (r: Self)
        ensures
            r@ == set_bit16(self@, 9, b),
            bit16(r@, 9) == b,
    {
        Keys(u16_with_bit(9, self.0, b))
    }
}

/// The ten key bits: flipping them turns one convention into the other.
pub open spec fn key_bits() -> u16 {
    0b11_1111_1111
}

impl KeysLowActive {
    /// The value holding the raw bits `bits`.
    pub closed spec fn new_spec(bits: u16) -> Self {
        KeysLowActive(bits)
    }
}

/// A reading of the key input register, in the hardware's low-active form.
impl From<u16> for KeysLowActive {
    fn from(bits: u16) -> (r: Self)
        ensures
            r@ == bits,
    {
        KeysLowActive(bits)
    }
}

impl FromSpecImpl<u16> for KeysLowActive {
    open spec fn obeys_from_spec() -> bool {
        true
    }

    open spec fn from_spec(bits: u16) -> Self {
        KeysLowActive::new_spec(bits)
    }
}

impl From<KeysLowActive> for Keys {
    fn from(low: KeysLowActive) -> (r: Self)
        ensures
            r@ == low@ ^ key_bits(),
    {
        Keys(low.0 ^ 0b11_1111_1111)
    }
}

impl FromSpecImpl<KeysLowActive> for Keys {
    open spec fn obeys_from_spec() -> bool {
        true
    }

    open spec fn from_spec(low: KeysLowActive) -> Self {
        Keys::new_spec(low@ ^ key_bits())
    }
}

impl From<Keys> for u16 {
    fn from(k: Keys) -> (r: Self)
        ensures
            r == k@,
    {
        k.0
    }
}

impl FromSpecImpl<Keys> for u16 {
    open spec fn obeys_from_spec() -> bool {
        true
    }

    open spec fn from_spec(k: Keys) -> Self {
        k@
    }
}

impl Keys {
    /// The value holding the raw bits `bits`.
    pub closed spec fn new_spec(bits: u16) -> Self {
        Keys(bits)
    }
}

/// Converting a low-active reading to high-active keys flips exactly the ten
/// key bits: a key reads as pressed in `Keys` exactly when its bit was 0.
pub proof fn lemma_keys_from_low_active(low: u16, b: u16)
    requires
        b < 10,
    ensures
        bit16(low ^ key_bits(), b) == !bit16(low, b),
{
    assert(bit16(low ^ 0b11_1111_1111u16, b) == !bit16(low, b)) by (bit_vector)
        requires
            b < 10,
    ;
}

} // verus!
