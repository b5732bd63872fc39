//! Background control types.
use vstd::prelude::*;

verus! {

/// The size of a background.
///
/// The meaning changes depending on if the background is Text or Affine mode.
///
/// * In text mode, the screen base block determines where to start reading the
///   tile arrangement data (2k). Size Zero gives one screen block of use. Size
///   One and Two cause two of them to be used (horizontally or vertically,
///   respectively). Size Three is four blocks used, [0,1] above and then [2,3]
///   below. Each screen base block used is always a 32x32 tile grid.
/// * In affine mode, the screen base block determines where to start reading
///   data followed by the size of data as shown. The number of tiles varies
///   according to the size used.
#[derive(Debug, Clone, Copy, PartialEq, Eq)]
pub enum BGSize {
    /// * Text: 256x256px (2k)
    /// * Affine: 128x128px (256b)
    Zero,
    /// * Text: 512x256px (4k)
    /// * Affine: 256x256px (1k)
    One,
    /// * Text: 256x512px (4k)
    /// * Affine: 512x512px (4k)
    Two,
    /// * Text: 512x512px (8k)
    /// * Affine: 1024x1024px (16k)
    Three,
}

impl BGSize {
    /// The size's number in the background control register.
    pub open spec fn raw(self) -> u16 {
        match self {
            BGSize::Zero => 0,
            BGSize::One => 1,
            BGSize::Two => 2,
            BGSize::Three => 3,
        }
    }

    /// The size's number in the background control register.
    pub fn to_u16(self) -> (r: u16)
        ensures
            r == self.raw(),
    {
        match self {
            BGSize::Zero => 0,
            BGSize::One => 1,
            BGSize::Two => 2,
            BGSize::Three => 3,
        }
    }
}


/// Every [`BGSize`] is written as its hardware code, its number in the register:
/// `Zero` 0, `One` 1, `Two` 2, `Three` 3; distinct settings have
/// distinct codes, so a code read back names the setting that was written.
pub proof fn lemma_bg_size_codes(a: BGSize, b: BGSize)
    ensures
        a.raw() == (match a {
            BGSize::Zero => 0u16,
            BGSize::One => 1u16,
            BGSize::Two => 2u16,
            BGSize::Three => 3u16,
        }),
        a.raw() == b.raw() ==> a == b,
{
}

} // verus!
