//! Double-precision numbers carried by their IEEE-754 bit pattern.
//!
//! The library never computes with fractions. It stores them, hands them on,
//! and flips their sign; every one of these is exact on the bit pattern.

use vstd::prelude::*;

verus! {

/// The bit that holds the sign of a double-precision number.
pub const SIGN_BIT: u64 = 0x8000_0000_0000_0000;

/// The 63 bits that hold exponent and fraction.
pub const MAGNITUDE_BITS: u64 = 0x7FFF_FFFF_FFFF_FFFF;

/// The 11 bits that hold the exponent.
pub const EXPONENT_BITS: u64 = 0x7FF0_0000_0000_0000;

/// A double-precision number, held as the 64 bits of its binary64 encoding.
#[derive(Debug, Clone, Copy, PartialEq, Eq, Structural)]
pub struct Float64 {
    pub bits: u64,
}

impl Float64 {
    /// The number with the opposite sign and the same exponent and fraction.
    pub open spec fn spec_negated(self) -> Float64 {
        Float64 { bits: self.bits ^ SIGN_BIT }
    }

    /// Whether the sign bit is set.
    pub open spec fn spec_is_sign_negative(self) -> bool {
        self.bits & SIGN_BIT == SIGN_BIT
    }

    /// Exponent and fraction, without the sign.
    pub open spec fn spec_magnitude(self) -> u64 {
        self.bits & MAGNITUDE_BITS
    }

    /// Whether the number is normal: neither zero nor subnormal, whose
    /// exponent bits are all clear, nor infinite nor NaN, whose exponent bits
    /// are all set.
    pub open spec fn spec_is_normal(self) -> bool {
        self.bits & EXPONENT_BITS != 0 && self.bits & EXPONENT_BITS != EXPONENT_BITS
    }

    /// Whether the number can be a scale factor: positive and normal.
    pub open spec fn spec_is_scale_factor(self) -> bool {
        !self.spec_is_sign_negative() && self.spec_is_normal()
    }

    /// Positive zero: all bits clear.
    pub open spec fn spec_zero() -> Float64 {
        Float64 { bits: 0 }
    }

    pub fn from_bits(bits: u64) -> (r: Self)
        ensures
            r.bits == bits,
    {
        Float64 { bits }
    }

    pub fn to_bits(self) -> (bits: u64)
        ensures
            bits == self.bits,
    {
        self.bits
    }

    pub fn zero() -> (r: Self)
        ensures
            r == Self::spec_zero(),
    {
        Float64 { bits: 0 }
    }

    pub fn is_sign_negative(self) -> (r: bool)
        ensures
            r == self.spec_is_sign_negative(),
    {
        self.bits & SIGN_BIT == SIGN_BIT
    }

    pub fn is_normal(self) -> (r: bool)
        ensures
            r == self.spec_is_normal(),
    {
        let exponent = self.bits & EXPONENT_BITS;
        exponent != 0 && exponent != EXPONENT_BITS
    }

    /// Whether the number can be a scale factor: positive and normal.
    pub fn is_scale_factor(self) -> (r: bool)
        ensures
            r == self.spec_is_scale_factor(),
    {
        !self.is_sign_negative() && self.is_normal()
    }

    /// Flips the sign and keeps everything else, as negation of a binary64
    /// number does for every value, zeros, infinities and NaNs included.
    pub fn negated(self) -> (r: Self)
        ensures
            r == self.spec_negated(),
            r.spec_magnitude() == self.spec_magnitude(),
            r.spec_is_sign_negative() == !self.spec_is_sign_negative(),
    {
        proof {
            self.lemma_negated_flips_sign_only();
        }
        Float64 { bits: self.bits ^ SIGN_BIT }
    }

    /// Negation changes the sign bit and no other bit.
    pub proof fn lemma_negated_flips_sign_only(self)
        ensures
            self.spec_negated().spec_magnitude() == self.spec_magnitude(),
            self.spec_negated().spec_is_sign_negative() == !self.spec_is_sign_negative(),
    {
        let b = self.bits;
        assert((b ^ 0x8000_0000_0000_0000u64) & 0x7FFF_FFFF_FFFF_FFFFu64 == b
            & 0x7FFF_FFFF_FFFF_FFFFu64) by (bit_vector);
        assert(((b ^ 0x8000_0000_0000_0000u64) & 0x8000_0000_0000_0000u64
            == 0x8000_0000_0000_0000u64) == !(b & 0x8000_0000_0000_0000u64
            == 0x8000_0000_0000_0000u64)) by (bit_vector);
    }

    /// Negating twice gives the number back.
    pub proof fn lemma_negated_twice(self)
        ensures
            self.spec_negated().spec_negated() == self,
    {
        let b = self.bits;
        assert((b ^ 0x8000_0000_0000_0000u64) ^ 0x8000_0000_0000_0000u64 == b) by (bit_vector);
    }
}

} // verus!
