//! Single precision numbers, carried as bit patterns.

use vstd::prelude::*;

verus! {

/// An IEEE 754 single precision number, held as the 32 bits of its encoding.
///
/// The format stores angles, scales and calibration constants in this form.
/// The decoders move such a number without interpreting it; the only question
/// they ever ask of it is whether it is zero.
#[derive(Debug, Clone, Copy, PartialEq, Eq, Structural)]
pub struct Real4 {
    /// Sign in bit 31, exponent in bits 30 to 23, fraction in bits 22 to 0.
    pub bits: u32,
}

/// The encoding of positive zero.
pub const POSITIVE_ZERO_BITS: u32 = 0x0000_0000;

/// The encoding of negative zero.
pub const NEGATIVE_ZERO_BITS: u32 = 0x8000_0000;

/// The encoding of 0.5.
pub const ONE_HALF_BITS: u32 = 0x3f00_0000;

/// The encoding of 1.0.
pub const ONE_BITS: u32 = 0x3f80_0000;

impl Real4 {
    /// Whether the number compares equal to zero: positive and negative zero
    /// both do, and nothing else does.
    pub open spec fn is_zero(self) -> bool {
        self.bits == POSITIVE_ZERO_BITS || self.bits == NEGATIVE_ZERO_BITS
    }

    /// The number with the given encoding.
    pub fn from_bits(bits: u32) -> (r: Self)
        ensures
            r.bits == bits,
    {
        Real4 { bits }
    }

    /// The encoding of the number.
    pub fn to_bits(&self) -> (r: u32)
        ensures
            r == self.bits,
    {
        self.bits
    }

    /// Decides [`Real4::is_zero`].
    pub fn equals_zero(&self) -> (r: bool)
        ensures
            r == self.is_zero(),
    {
        self.bits == POSITIVE_ZERO_BITS || self.bits == NEGATIVE_ZERO_BITS
    }
}

} // verus!
