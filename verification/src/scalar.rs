//! Double-precision numbers carried as their IEEE-754 binary64 encoding.
//!
//! Verified code never computes with these numbers. It stores them, hands them
//! on, and takes the few decisions that the encoding alone settles: whether a
//! value is a NaN, whether it is a zero, and how two values compare.

use vstd::prelude::*;

verus! {

/// Encoding of positive infinity; every larger magnitude is a NaN.
pub const INFINITY_BITS: u64 = 0x7ff0_0000_0000_0000;

/// The lowest encoding with the sign bit set, which is negative zero.
pub const SIGN_BIT: u64 = 0x8000_0000_0000_0000;

/// Encoding of the quiet NaN that stands for an undefined quantity.
pub const NAN_BITS: u64 = 0x7ff8_0000_0000_0000;

/// Encoding of the double nearest to the circle constant.
pub const PI_BITS: u64 = 0x4009_21fb_5444_2d18;

/// A binary64 number, known by its 64 bits.
#[derive(Clone, Copy, Debug)]
pub struct Scalar {
    pub bits: u64,
}

impl Scalar {
    /// The encoding without its sign bit.
    pub open spec fn magnitude(self) -> u64 {
        if self.bits >= SIGN_BIT {
            (self.bits - SIGN_BIT) as u64
        } else {
            self.bits
        }
    }

    /// The sign bit is set. This holds of negative zero and of some NaNs too.
    pub open spec fn sign_negative(self) -> bool {
        self.bits >= SIGN_BIT
    }

    /// The value is not a number.
    pub open spec fn nan(self) -> bool {
        self.magnitude() > INFINITY_BITS
    }

    /// The value is positive or negative zero.
    pub open spec fn zero(self) -> bool {
        self.magnitude() == 0
    }

    /// Place of a value that is not a NaN on the number line: magnitudes of
    /// one sign are ordered as their encodings are, and the two zeros share
    /// the origin.
    pub open spec fn rank(self) -> int {
        if self.sign_negative() {
            -(self.magnitude() as int)
        } else {
            self.magnitude() as int
        }
    }

    /// Numeric equality: no NaN equals anything, the two zeros are equal.
    pub open spec fn same_number(self, other: Scalar) -> bool {
        !self.nan() && !other.nan() && self.rank() == other.rank()
    }

    /// Numeric `<=`, false as soon as one side is a NaN.
    pub open spec fn at_most(self, other: Scalar) -> bool {
        !self.nan() && !other.nan() && self.rank() <= other.rank()
    }

    /// Numeric `<`, false as soon as one side is a NaN.
    pub open spec fn below(self, other: Scalar) -> bool {
        !self.nan() && !other.nan() && self.rank() < other.rank()
    }

    /// What limiting `self` to `[low, high]` gives: a NaN stays as it is, a
    /// value below `low` becomes `low`, one above `high` becomes `high`.
    pub open spec fn clamped(self, low: Scalar, high: Scalar) -> Scalar {
        if self.below(low) {
            low
        } else if high.below(self) {
            high
        } else {
            self
        }
    }

    /// The number that `bits` encodes.
    pub fn from_bits(bits: u64) -> (r: Scalar)
        ensures
            r.bits == bits,
    {
        Scalar { bits }
    }

    /// The encoding of the number.
    pub fn to_bits(self) -> (r: u64)
        ensures
            r == self.bits,
    {
        self.bits
    }

    /// Positive zero.
    pub fn zero_value() -> (r: Scalar)
        ensures
            r.bits == 0,
            r.zero(),
            !r.sign_negative(),
    {
        Scalar { bits: 0 }
    }

    /// The NaN that marks a quantity as undefined.
    pub fn undefined() -> (r: Scalar)
        ensures
            r.bits == NAN_BITS,
            r.nan(),
    {
        Scalar { bits: NAN_BITS }
    }

    fn magnitude_bits(self) -> (r: u64)
        ensures
            r == self.magnitude(),
    {
        if self.bits >= SIGN_BIT {
            self.bits - SIGN_BIT
        } else {
            self.bits
        }
    }

    /// Whether the value is not a number.
    pub fn is_nan(self) -> (r: bool)
        ensures
            r == self.nan(),
    {
        self.magnitude_bits() > INFINITY_BITS
    }

    /// Whether the value is positive or negative zero.
    pub fn is_zero(self) -> (r: bool)
        ensures
            r == self.zero(),
    {
        self.magnitude_bits() == 0
    }

    /// Whether the sign bit is set.
    pub fn is_sign_negative(self) -> (r: bool)
        ensures
            r == self.sign_negative(),
    {
        self.bits >= SIGN_BIT
    }

    /// Numeric equality.
    pub fn float_eq(self, other: Scalar) -> (r: bool)
        ensures
            r == self.same_number(other),
    {
        if self.is_nan() || other.is_nan() {
            false
        } else if self.is_zero() {
            other.is_zero()
        } else {
            self.bits == other.bits
        }
    }

    /// Numeric `<`.
    pub fn float_lt(self, other: Scalar) -> (r: bool)
        ensures
            r == self.below(other),
    {
        if self.is_nan() || other.is_nan() {
            return false;
        }
        let a: u64 = self.magnitude_bits();
        let b: u64 = other.magnitude_bits();
        if self.is_sign_negative() {
            if other.is_sign_negative() {
                b < a
            } else {
                a != 0 || b != 0
            }
        } else {
            if other.is_sign_negative() {
                false
            } else {
                a < b
            }
        }
    }

    /// Numeric `<=`.
    pub fn float_le(self, other: Scalar) -> (r: bool)
        ensures
            r == self.at_most(other),
    {
        if self.is_nan() || other.is_nan() {
            false
        } else {
            !other.float_lt(self)
        }
    }

    /// Limits the value to `[low, high]`. The bounds must be ordered numbers.
    pub fn clamp(self, low: Scalar, high: Scalar) -> (r: Scalar)
        requires
            low.at_most(high),
        ensures
            r == self.clamped(low, high),
            self.nan() ==> r == self,
            !self.nan() ==> low.at_most(r) && r.at_most(high),
    {
        if self.float_lt(low) {
            low
        } else if high.float_lt(self) {
            high
        } else {
            self
        }
    }
}

} // verus!
