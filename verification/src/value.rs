//! Real-valued fields, kept as the bits that the file holds.

use vstd::prelude::*;

verus! {

/// An IEEE 754 binary64 number, held as its 64-bit pattern.
///
/// The decoder moves such numbers from the file to the caller and never
/// computes with them, so the bits are all it needs.
#[derive(Copy, Clone, Debug, PartialEq, Eq, Structural)]
pub struct Binary64 {
    /// the bit pattern: sign, then exponent, then fraction, from the top bit
    pub bits: u64,
}

} // verus!
