//! Single-precision values carried by their encoding.
//!
//! The host reports processor load, load average and temperatures in single
//! precision. Here such a value travels as the 32 bits of its IEEE 754
//! encoding: one sign bit, eight bits of exponent, twenty-three of fraction.
//! Whether it is finite, and which of two finite values is the greater, can be
//! read off the bits with whole-number arithmetic.

use vstd::prelude::*;

verus! {

/// The encoding of negative zero: the sign bit alone.
pub const SIGN_BIT: u32 = 0x8000_0000;

/// The encoding of positive infinity: every exponent bit set, no fraction bit.
/// Magnitudes from here on encode an infinity or a NaN.
pub const INFINITY_BITS: u32 = 0x7f80_0000;

/// A single-precision value, by its bits.
#[derive(Clone, Copy, Debug, PartialEq, Eq, Structural)]
pub struct Binary32 {
    pub bits: u32,
}

impl Binary32 {
    /// The sign bit is set.
    pub open spec fn is_negative(self) -> bool {
        self.bits >= SIGN_BIT
    }

    /// The bits without the sign bit.
    pub open spec fn magnitude(self) -> u32 {
        if self.bits >= SIGN_BIT {
            (self.bits - SIGN_BIT) as u32
        } else {
            self.bits
        }
    }

    /// The value is a number: neither an infinity nor a NaN.
    pub open spec fn is_finite(self) -> bool {
        self.magnitude() < INFINITY_BITS
    }

    /// A whole number that orders finite values as the numbers that they
    /// encode. The two zeros, equal as numbers, share the rank zero; any other
    /// two encodings of finite values differ in rank.
    pub open spec fn rank(self) -> int {
        if self.is_negative() {
            -(self.magnitude() as int)
        } else {
            self.magnitude() as int
        }
    }

    /// The value with these bits.
    pub fn from_bits(bits: u32) -> (value: Self)
        ensures
            value.bits == bits,
    {
        Binary32 { bits }
    }

    /// The bits of the value.
    pub fn to_bits(self) -> (bits: u32)
        ensures
            bits == self.bits,
    {
        self.bits
    }

    /// Tells whether the value is a number.
    pub fn finite(self) -> (finite: bool)
        ensures
            finite == self.is_finite(),
    {
        if self.bits >= SIGN_BIT {
            self.bits - SIGN_BIT < INFINITY_BITS
        } else {
            self.bits < INFINITY_BITS
        }
    }

    /// Tells whether this value ranks above `other`.
    pub fn outranks(self, other: Binary32) -> (above: bool)
        ensures
            above == (self.rank() > other.rank()),
    {
        self.signed_magnitude() > other.signed_magnitude()
    }

    fn signed_magnitude(self) -> (rank: i64)
        ensures
            rank == self.rank(),
    {
        if self.bits >= SIGN_BIT {
            -((self.bits - SIGN_BIT) as i64)
        } else {
            self.bits as i64
        }
    }
}

} // verus!
