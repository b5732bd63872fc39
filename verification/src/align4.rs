//! Byte arrays viewed as arrays of wider integers.
use vstd::prelude::*;

verus! {

/// Wraps a value that is meant to sit at an address aligned to 4.
#[derive(Debug)]
pub struct Align4<T>(pub T);

/// The little-endian `u16` made of two bytes.
pub open spec fn le_u16(b0: u8, b1: u8) -> int {
    b0 + 0x100 * b1
}

/// The little-endian `u32` made of four bytes.
pub open spec fn le_u32(b0: u8, b1: u8, b2: u8, b3: u8) -> int {
    b0 + 0x100 * b1 + 0x1_0000 * b2 + 0x100_0000 * b3
}

proof fn lemma_le_u16(b0: u8, b1: u8)
    ensures
        ((b0 as u16) | ((b1 as u16) << 8u16)) as int == le_u16(b0, b1),
{
    assert(((b0 as u16) | ((b1 as u16) << 8u16)) == b0 + 0x100 * b1) by (bit_vector);
}

proof fn lemma_le_u32(b0: u8, b1: u8, b2: u8, b3: u8)
    ensures
        ((b0 as u32) | ((b1 as u32) << 8u32) | ((b2 as u32) << 16u32) | ((b3 as u32) << 24u32)) as int
            == le_u32(b0, b1, b2, b3),
{
    assert(((b0 as u32) | ((b1 as u32) << 8u32) | ((b2 as u32) << 16u32) | ((b3 as u32) << 24u32))
        == b0 + 0x100 * b1 + 0x1_0000 * b2 + 0x100_0000 * b3) by (bit_vector);
}

impl<const N: usize> Align4<[u8; N]> {
    /// Views these bytes as a slice of `u32`, in the GBA's little-endian
    /// byte order.
    ///
    /// The number of bytes must be a multiple of 4.
    pub fn as_u32_slice(&self) -> (r: Vec<u32>)
        requires
            N % 4 == 0,
        ensures
            r@.len() == N / 4,
            forall|i: int|
                0 <= i < N / 4 ==> #[trigger] r@[i] as int == le_u32(
                    self.0[4 * i],
                    self.0[4 * i + 1],
                    self.0[4 * i + 2],
                    self.0[4 * i + 3],
                ),
    {
        let mut r: Vec<u32> = Vec::new();
        let mut i: usize = 0;
        while i < N / 4
            invariant
                N % 4 == 0,
                i <= N / 4,
                r@.len() == i,
                forall|j: int|
                    0 <= j < i ==> #[trigger] r@[j] as int == le_u32(
                        self.0[4 * j],
                        self.0[4 * j + 1],
                        self.0[4 * j + 2],
                        self.0[4 * j + 3],
                    ),
            decreases N / 4 - i,
        {
            let b0 = self.0[4 * i];
            let b1 = self.0[4 * i + 1];
            let b2 = self.0[4 * i + 2];
            let b3 = self.0[4 * i + 3];
            proof {
                lemma_le_u32(b0, b1, b2, b3);
            }
            r.push((b0 as u32) | ((b1 as u32) << 8) | ((b2 as u32) << 16) | ((b3 as u32) << 24));
            i = i + 1;
        }
        r
    }

    /// Views these bytes as a slice of `u16`, in the GBA's little-endian
    /// byte order.
    ///
    /// The number of bytes must be a multiple of 2.
    pub fn as_u16_slice(&self) -> (r: Vec<u16>)
        requires
            N % 2 == 0,
        ensures
            r@.len() == N / 2,
            forall|i: int|
                0 <= i < N / 2 ==> #[trigger] r@[i] as int == le_u16(self.0[2 * i], self.0[2 * i + 1]),
    {
        let mut r: Vec<u16> = Vec::new();
        let mut i: usize = 0;
        while i < N / 2
            invariant
                N % 2 == 0,
                i <= N / 2,
                r@.len() == i,
                forall|j: int|
                    0 <= j < i ==> #[trigger] r@[j] as int == le_u16(self.0[2 * j], self.0[2 * j + 1]),
            decreases N / 2 - i,
        {
            let b0 = self.0[2 * i];
            let b1 = self.0[2 * i + 1];
            proof {
                lemma_le_u16(b0, b1);
            }
            r.push((b0 as u16) | ((b1 as u16) << 8));
            i = i + 1;
        }
        r
    }
}

} // verus!
