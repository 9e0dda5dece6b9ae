//! Single-precision numbers, held by their bit patterns.
//!
//! Angles, positions and matrix entries are carried around, compared and negated
//! here. None of that needs arithmetic: the bit pattern of an IEEE 754 number is
//! its sign followed by a magnitude that orders as the number does.

use vstd::prelude::*;

verus! {

/// The weight of the sign bit.
pub const SIGN_BIT: u32 = 0x8000_0000;

/// The bit pattern of infinity; only NaNs have a larger magnitude.
pub const INFINITY_BITS: u32 = 0x7f80_0000;

/// The bit pattern of one.
pub const ONE_BITS: u32 = 0x3f80_0000;

/// A single-precision number.
#[derive(Clone, Copy, Debug, PartialEq, Eq, Structural)]
pub struct Scalar {
    pub bits: u32,
}

/// Zero.
pub open spec fn zero_scalar() -> Scalar {
    Scalar { bits: 0 }
}

/// One.
pub open spec fn one_scalar() -> Scalar {
    Scalar { bits: ONE_BITS }
}

impl Scalar {
    /// Whether the sign bit is set.
    pub open spec fn is_signed(self) -> bool {
        self.bits >= SIGN_BIT
    }

    /// The bit pattern of the absolute value. On numbers it orders as the
    /// absolute values do.
    pub open spec fn size(self) -> int {
        if self.is_signed() {
            self.bits - SIGN_BIT
        } else {
            self.bits as int
        }
    }

    /// Whether this is not a number.
    pub open spec fn nan(self) -> bool {
        self.size() > INFINITY_BITS
    }

    /// An integer that orders as the numbers do: `a` is less than `b` exactly
    /// if `a.rank() < b.rank()`, for any two that are not NaN. The two zeros
    /// share a rank.
    pub open spec fn rank(self) -> int {
        if self.is_signed() {
            -self.size()
        } else {
            self.size()
        }
    }

    /// The same size with the other sign.
    pub open spec fn opposite(self) -> Scalar {
        if self.is_signed() {
            Scalar { bits: (self.bits - SIGN_BIT) as u32 }
        } else {
            Scalar { bits: (self.bits + SIGN_BIT) as u32 }
        }
    }

    /// Whether `self` is less than `other`. Nothing is less than a NaN, and a NaN
    /// is not less than anything.
    pub open spec fn less(self, other: Scalar) -> bool {
        !self.nan() && !other.nan() && self.rank() < other.rank()
    }

    /// Makes a number from its bit pattern.
    pub fn from_bits(bits: u32) -> (s: Scalar)
        ensures
            s.bits == bits,
    {
        Scalar { bits }
    }

    /// The bit pattern of the absolute value.
    pub fn abs_bits(&self) -> (r: u32)
        ensures
            r == self.size(),
    {
        if self.bits >= SIGN_BIT {
            self.bits - SIGN_BIT
        } else {
            self.bits
        }
    }

    /// Negates the number.
    pub fn negated(&self) -> (s: Scalar)
        ensures
            s == self.opposite(),
    {
        if self.bits >= SIGN_BIT {
            Scalar { bits: self.bits - SIGN_BIT }
        } else {
            Scalar { bits: self.bits + SIGN_BIT }
        }
    }

    /// Compares two numbers.
    pub fn is_less_than(&self, other: &Scalar) -> (r: bool)
        ensures
            r == self.less(*other),
    {
        let a: u32 = self.abs_bits();
        let b: u32 = other.abs_bits();
        if a > INFINITY_BITS || b > INFINITY_BITS {
            return false;
        }
        if self.bits >= SIGN_BIT {
            if other.bits >= SIGN_BIT {
                a > b
            } else {
                a > 0 || b > 0
            }
        } else {
            other.bits < SIGN_BIT && a < b
        }
    }
}

/// Negating twice gives the number back, and negating once keeps its size and
/// turns its rank round.
pub proof fn negation_is_an_involution(s: Scalar)
    ensures
        s.opposite().opposite() == s,
        s.opposite().size() == s.size(),
        s.opposite().rank() == -s.rank(),
{
}

} // verus!
