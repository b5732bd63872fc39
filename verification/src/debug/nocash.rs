//! Special utils for if you're running on the NO$GBA emulator.
//!
//! This assumes the latest version (3.03).
use vstd::prelude::*;

verus! {

/// The address that prints a character when written.
pub const CHAR_OUT: usize = 0x04FFFA1C;

/// The start of the 16-byte block that holds the emulator's signature.
pub const SIGNATURE_ADDR: usize = 0x04FFFA00;

/// The signature `no$gba ` that NO$GBA shows at [`SIGNATURE_ADDR`].
pub open spec fn signature() -> Seq<u8> {
    seq![0x6e, 0x6f, 0x24, 0x67, 0x62, 0x61, 0x20]
}

/// Whether we are running in `NO$GBA`, given the first seven bytes read
/// from [`SIGNATURE_ADDR`].
pub fn detect(read: [u8; 7]) -> (r: bool)
    ensures
        r == (read@ == signature()),
{
    let expected: [u8; 7] = [0x6e, 0x6f, 0x24, 0x67, 0x62, 0x61, 0x20];
    assert(expected@ == signature());
    let mut i: usize = 0;
    while i < 7
        invariant
            i <= 7,
            expected@ == signature(),
            forall|j: int| 0 <= j < i ==> read@[j] == expected@[j],
        decreases 7 - i,
    {
        if read[i] != expected[i] {
            return false;
        }
        i = i + 1;
    }
    assert(read@ == signature());
    true
}

/// Allows writing to the `NO$GBA` debug output.
#[derive(Debug, PartialEq, Eq)]
pub struct NoCashDebug {
    attached: (),
}

impl NoCashDebug {
    /// Gives a new `NoCashDebug`, if running within `NO$GBA` (as [`detect`]
    /// found).
    pub fn new(detected: bool) -> (r: Option<Self>)
        ensures
            r is Some <==> detected,
    {
        if detected {
            Some(NoCashDebug { attached: () })
        } else {
            None
        }
    }
}

/// The debug interface for `NO$GBA`.
pub struct NoCashDebugInterface;

} // verus!
