use vstd::prelude::*;

verus! {

/// Bits of `0.0`.
pub const ZERO_BITS: u32 = 0x0000_0000;

/// Bits of `0.5`.
pub const HALF_BITS: u32 = 0x3f00_0000;

/// Bits of `1.0`.
pub const ONE_BITS: u32 = 0x3f80_0000;

/// Bits of `180.0`.
pub const HALF_TURN_BITS: u32 = 0x4334_0000;

/// Bits of positive infinity; every larger magnitude is a NaN.
pub const INFINITY_BITS: u32 = 0x7f80_0000;

/// Mask that clears the sign bit.
pub const MAGNITUDE_MASK: u32 = 0x7fff_ffff;

/// An IEEE-754 single-precision number, held as its 32 bits.
#[derive(Clone, Copy, Debug, PartialEq, Eq, Structural)]
pub struct Scalar {
    pub bits: u32,
}

impl Scalar {
    /// The bits without the sign.
    pub open spec fn magnitude(self) -> u32 {
        self.bits & MAGNITUDE_MASK
    }

    /// The sign bit is set.
    pub open spec fn sign_bit(self) -> bool {
        self.bits > MAGNITUDE_MASK
    }

    /// Not a number: exponent all ones and a non-zero fraction.
    pub open spec fn is_nan_spec(self) -> bool {
        self.magnitude() > INFINITY_BITS
    }

    /// Position of a non-NaN number on the number line: magnitudes of one
    /// sign are ordered as their bits are, and both zeros share position 0.
    pub open spec fn rank(self) -> int {
        if self.sign_bit() {
            -(self.magnitude() as int)
        } else {
            self.magnitude() as int
        }
    }

    /// IEEE `<`: false as soon as either side is a NaN.
    pub open spec fn lt_spec(self, other: Scalar) -> bool {
        &&& !self.is_nan_spec()
        &&& !other.is_nan_spec()
        &&& self.rank() < other.rank()
    }

    /// Strictly greater than zero (positive infinity included).
    pub open spec fn is_positive_spec(self) -> bool {
        0 < self.bits <= INFINITY_BITS
    }

    pub fn from_bits(bits: u32) -> (s: Scalar)
        ensures
            s.bits == bits,
    {
        Scalar { bits }
    }

    pub fn to_bits(self) -> (bits: u32)
        ensures
            bits == self.bits,
    {
        self.bits
    }

    pub fn is_nan(self) -> (r: bool)
        ensures
            r == self.is_nan_spec(),
    {
        (self.bits & MAGNITUDE_MASK) > INFINITY_BITS
    }

    pub fn is_positive(self) -> (r: bool)
        ensures
            r == self.is_positive_spec(),
    {
        0 < self.bits && self.bits <= INFINITY_BITS
    }

    /// IEEE `<` on the two numbers.
    pub fn lt(self, other: Scalar) -> (r: bool)
        ensures
            r == self.lt_spec(other),
    {
        if self.is_nan() || other.is_nan() {
            return false;
        }
        let a: u32 = self.bits & MAGNITUDE_MASK;
        let b: u32 = other.bits & MAGNITUDE_MASK;
        let a_neg: bool = self.bits > MAGNITUDE_MASK;
        let b_neg: bool = other.bits > MAGNITUDE_MASK;
        if a_neg {
            if b_neg {
                b < a
            } else {
                a != 0 || b != 0
            }
        } else {
            if b_neg {
                false
            } else {
                a < b
            }
        }
    }
}

} // verus!
