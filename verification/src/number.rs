//! Measured quantities that the library carries without computing on them.

use vstd::prelude::*;

verus! {

/// The bit pattern of the number one.
pub const ONE_BITS: u64 = 0x3FF0_0000_0000_0000;

/// The bit pattern of the number five.
pub const FIVE_BITS: u64 = 0x4014_0000_0000_0000;

/// The bit pattern of the number one hundred.
pub const HUNDRED_BITS: u64 = 0x4059_0000_0000_0000;

/// A double-precision IEEE 754 number, held by its bit pattern.
///
/// Costs, rates and latencies pass through the library on their way between
/// configuration, payloads and the wire. Nothing here does arithmetic on
/// them, so the sixty-four bits are all that is kept; the embedding program
/// reads them back as a number.
#[derive(Clone, Copy, Debug, PartialEq, Eq, Structural)]
pub struct Float64 {
    /// Sign, exponent and fraction, as the standard lays them out.
    pub bits: u64,
}

impl Float64 {
    /// The number with the given bit pattern.
    pub fn from_bits(bits: u64) -> (x: Self)
        ensures
            x == (Float64 { bits }),
    {
        Float64 { bits }
    }

    /// The bit pattern of this number.
    pub fn to_bits(self) -> (bits: u64)
        ensures
            bits == self.bits,
    {
        self.bits
    }
}

} // verus!
