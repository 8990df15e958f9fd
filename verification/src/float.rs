//! Double-precision numbers, carried by their bit patterns.

use vstd::prelude::*;

verus! {

/// An IEEE 754 double-precision number, held as its 64-bit pattern.
///
/// The crate never computes with such a number: it receives one, keeps it and
/// hands it out again, bit for bit.
#[derive(Clone, Copy, Debug)]
pub struct Float64 {
    pub bits: u64,
}

impl Float64 {
    /// The number with the given bit pattern.
    pub fn from_bits(bits: u64) -> (number: Float64)
        ensures
            number.bits == bits,
    {
        Float64 { bits }
    }

    /// The number's bit pattern.
    pub fn to_bits(&self) -> (bits: u64)
        ensures
            bits == self.bits,
    {
        self.bits
    }
}

} // verus!
