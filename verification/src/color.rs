//! The GBA's 15-bit colors.
use vstd::prelude::*;
use vstd::std_specs::convert::FromSpecImpl;
use crate::bits::{field16, bit16};

verus! {

/// The GBA uses 5-bit-per-channel colors.
///
/// ```txt
/// 0bX_BBBBB_GGGGG_RRRRR
/// ```
#[derive(Debug, Clone, Copy, Default, PartialEq, Eq, PartialOrd, Ord, Hash)]
pub struct Color(pub u16);

impl Color {
    /// Packs the red, green and blue channels.
    ///
    /// Each channel is expected to be below 32; the bits of a larger value
    /// spill into the neighbouring channels, and bits shifted past bit 15 are
    /// lost.
    pub fn from_rgb(r: u16, g: u16, b: u16) -> (c: Self)
        ensures
            c.0 == r | ((g << 5u16) as u16) | ((b << 10u16) as u16),
            r < 32 && g < 32 && b < 32 ==> {
                &&& field16(c.0, 0, 4) == r
                &&& field16(c.0, 5, 9) == g
                &&& field16(c.0, 10, 14) == b
                &&& !bit16(c.0, 15)
            },
    {
        let c = Self(r | (g << 5) | (b << 10));
        proof {
            lemma_rgb_channels(r, g, b);
        }
        c
    }
}

/// Packing channels below 32 puts each one in its own five bits.
proof fn lemma_rgb_channels(r: u16, g: u16, b: u16)
    ensures
        r < 32 && g < 32 && b < 32 ==> {
            let c = r | ((g << 5u16) as u16) | ((b << 10u16) as u16);
            &&& field16(c, 0, 4) == r
            &&& field16(c, 5, 9) == g
            &&& field16(c, 10, 14) == b
            &&& !bit16(c, 15)
        },
{
    assert(r < 32 && g < 32 && b < 32 ==> {
        let c = r | ((g << 5u16) as u16) | ((b << 10u16) as u16);
        &&& field16(c, 0, 4) == r
        &&& field16(c, 5, 9) == g
        &&& field16(c, 10, 14) == b
        &&& !bit16(c, 15)
    }) by (bit_vector);
}

impl From<u16> for Color {
    fn from(u: u16) -> (c: Self)
        ensures
            c.0 == u,
    {
        Self(u)
    }
}

impl FromSpecImpl<u16> for Color {
    open spec fn obeys_from_spec() -> bool {
        true
    }

    open spec fn from_spec(u: u16) -> Self {
        Color(u)
    }
}

impl From<Color> for u16 {
    fn from(c: Color) -> (u: Self)
        ensures
            u == c.0,
    {
        c.0
    }
}

impl FromSpecImpl<Color> for u16 {
    open spec fn obeys_from_spec() -> bool {
        true
    }

    open spec fn from_spec(c: Color) -> Self {
        c.0
    }
}

} // verus!
