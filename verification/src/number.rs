//! Single-precision settings, carried as IEEE 754 bit patterns.

use vstd::prelude::*;

verus! {

/// Mask of the sign bit.
pub const SIGN_MASK: u32 = 0x8000_0000;

/// Mask of the eight exponent bits.
pub const EXPONENT_MASK: u32 = 0x7f80_0000;

/// Mask of the twenty-three fraction bits.
pub const FRACTION_MASK: u32 = 0x007f_ffff;

/// Bit pattern of positive infinity.
pub const INFINITY_BITS: u32 = 0x7f80_0000;

/// A single-precision IEEE 754 number, held as its bit pattern.
///
/// The library only stores, compares and classifies such numbers; it never
/// computes with them.
#[derive(Clone, Copy, Debug)]
pub struct Real32 {
    pub bits: u32,
}

impl Real32 {
    /// All exponent bits set and a non-zero fraction.
    pub open spec fn is_nan(self) -> bool {
        (self.bits & EXPONENT_MASK) == EXPONENT_MASK && (self.bits & FRACTION_MASK) != 0
    }

    /// Neither infinite nor NaN: some exponent bit is clear.
    pub open spec fn is_finite(self) -> bool {
        (self.bits & EXPONENT_MASK) != EXPONENT_MASK
    }

    /// Positive or negative zero.
    pub open spec fn is_zero(self) -> bool {
        (self.bits & !SIGN_MASK) == 0
    }

    /// Numeric equality: NaN equals nothing, the two zeros equal each other,
    /// and every other number equals exactly its own bit pattern.
    pub open spec fn same(self, other: Real32) -> bool {
        !self.is_nan() && !other.is_nan() && (self.bits == other.bits || (self.is_zero()
            && other.is_zero()))
    }

    /// The number with the given bit pattern.
    pub fn from_bits(bits: u32) -> (r: Real32)
        ensures
            r.bits == bits,
    {
        Real32 { bits }
    }

    /// The bit pattern of the number.
    pub fn to_bits(self) -> (bits: u32)
        ensures
            bits == self.bits,
    {
        self.bits
    }

    /// Positive infinity, the "no limit" sentinel.
    pub fn infinity() -> (r: Real32)
        ensures
            r.bits == INFINITY_BITS,
            !r.is_finite(),
            !r.is_nan(),
    {
        assert((0x7f80_0000u32 & 0x7f80_0000u32) == 0x7f80_0000u32) by (bit_vector);
        assert((0x7f80_0000u32 & 0x007f_ffffu32) == 0) by (bit_vector);
        Real32 { bits: INFINITY_BITS }
    }

    /// Executable form of [`Real32::is_nan`].
    pub fn nan(self) -> (b: bool)
        ensures
            b == self.is_nan(),
    {
        (self.bits & EXPONENT_MASK) == EXPONENT_MASK && (self.bits & FRACTION_MASK) != 0
    }

    /// Executable form of [`Real32::is_finite`].
    pub fn finite(self) -> (b: bool)
        ensures
            b == self.is_finite(),
    {
        (self.bits & EXPONENT_MASK) != EXPONENT_MASK
    }

    /// Executable form of [`Real32::is_finite`], negated: the test that
    /// decides whether a sentinel-valued field is left out of a document.
    pub fn non_finite(self) -> (b: bool)
        ensures
            b == !self.is_finite(),
    {
        !self.finite()
    }

    /// Executable form of [`Real32::same`].
    pub fn same_as(self, other: Real32) -> (b: bool)
        ensures
            b == self.same(other),
    {
        if self.nan() || other.nan() {
            false
        } else if self.bits == other.bits {
            true
        } else {
            (self.bits & !SIGN_MASK) == 0 && (other.bits & !SIGN_MASK) == 0
        }
    }
}

impl PartialEq for Real32 {
    fn eq(&self, other: &Real32) -> (b: bool) {
        self.same_as(*other)
    }
}

impl vstd::std_specs::cmp::PartialEqSpecImpl for Real32 {
    open spec fn obeys_eq_spec() -> bool {
        true
    }

    open spec fn eq_spec(&self, other: &Real32) -> bool {
        self.same(*other)
    }
}

/// Numeric equality of two optional numbers: both absent, or both present
/// and equal.
pub open spec fn real_opt_same(a: Option<Real32>, b: Option<Real32>) -> bool {
    match (a, b) {
        (Some(x), Some(y)) => x.same(y),
        (None, None) => true,
        _ => false,
    }
}

/// Executable form of [`real_opt_same`].
pub fn same_real_opt(a: Option<Real32>, b: Option<Real32>) -> (r: bool)
    ensures
        r == real_opt_same(a, b),
{
    match (a, b) {
        (Some(x), Some(y)) => x.same_as(y),
        (None, None) => true,
        _ => false,
    }
}

} // verus!
