//! Real quantities, held as binary64 bit patterns and compared exactly.
//!
//! A [`Scalar`] is the bit pattern of one binary64 value: a sign bit above 63
//! bits of magnitude. The library never computes with scalars. It orders them,
//! tests their sign and flips it, all on the bits, and it does so as the
//! numbers themselves compare: both zeros are equal, and a pattern that stands
//! for no number is neither below nor above anything.

use vstd::prelude::*;

verus! {

/// The sign bit of a pattern.
pub const SIGN: u64 = 0x8000_0000_0000_0000;

/// The pattern of positive infinity: a larger magnitude stands for no number.
pub const INFINITY: u64 = 0x7FF0_0000_0000_0000;

/// The pattern of one.
pub const ONE: u64 = 0x3FF0_0000_0000_0000;

/// The pattern of one hundred-millionth, below which a quantity counts as zero.
pub const EPSILON: u64 = 0x3E45_798E_E230_8C3A;

/// The pattern of one thousandth, the nearest distance at which a ray may strike.
pub const NEAREST: u64 = 0x3F50_624D_D2F1_A9FC;

/// One real quantity, by its bit pattern.
#[derive(Clone, Copy, Debug, PartialEq, Eq, Structural)]
pub struct Scalar {
    pub bits: u64,
}

impl Scalar {
    /// Whether the sign bit is set.
    pub open spec fn negative(self) -> bool {
        self.bits >= SIGN
    }

    /// The pattern without its sign bit.
    pub open spec fn magnitude(self) -> int {
        if self.bits >= SIGN {
            self.bits - SIGN
        } else {
            self.bits as int
        }
    }

    /// Whether the pattern stands for no number.
    pub open spec fn is_nan(self) -> bool {
        self.magnitude() > INFINITY
    }

    /// Whether the pattern stands for a number that is not infinite.
    pub open spec fn is_finite(self) -> bool {
        self.magnitude() < INFINITY
    }

    /// The place of the quantity on the number line: an integer that grows with
    /// the quantity, 0 for both zeros.
    pub open spec fn key(self) -> int {
        if self.negative() {
            -self.magnitude()
        } else {
            self.magnitude()
        }
    }

    /// `self < other` as numbers: false when either stands for no number.
    pub open spec fn less(self, other: Scalar) -> bool {
        !self.is_nan() && !other.is_nan() && self.key() < other.key()
    }

    /// `self <= other` as numbers: false when either stands for no number.
    pub open spec fn at_most(self, other: Scalar) -> bool {
        !self.is_nan() && !other.is_nan() && self.key() <= other.key()
    }

    /// The same quantity with the other sign: the pattern with its sign bit
    /// flipped.
    pub open spec fn flipped(self) -> Scalar {
        if self.bits >= SIGN {
            Scalar { bits: (self.bits - SIGN) as u64 }
        } else {
            Scalar { bits: (self.bits + SIGN) as u64 }
        }
    }

    /// The quantity with the given pattern.
    pub fn from_bits(bits: u64) -> (s: Scalar)
        ensures
            s.bits == bits,
    {
        Scalar { bits }
    }

    /// The pattern of the quantity.
    pub fn to_bits(&self) -> (bits: u64)
        ensures
            bits == self.bits,
    {
        self.bits
    }

    /// Zero.
    pub fn zero() -> (s: Scalar)
        ensures
            s.bits == 0,
    {
        Scalar { bits: 0 }
    }

    /// One.
    pub fn one() -> (s: Scalar)
        ensures
            s.bits == ONE,
    {
        Scalar { bits: ONE }
    }

    /// Positive infinity.
    pub fn infinity() -> (s: Scalar)
        ensures
            s.bits == INFINITY,
    {
        Scalar { bits: INFINITY }
    }

    /// Tests whether the pattern stands for no number.
    pub fn nan(&self) -> (b: bool)
        ensures
            b == self.is_nan(),
    {
        if self.bits >= SIGN {
            self.bits - SIGN > INFINITY
        } else {
            self.bits > INFINITY
        }
    }

    /// Tests whether the pattern stands for a number that is not infinite.
    pub fn finite(&self) -> (b: bool)
        ensures
            b == self.is_finite(),
    {
        if self.bits >= SIGN {
            self.bits - SIGN < INFINITY
        } else {
            self.bits < INFINITY
        }
    }

    /// Tests `self < other`.
    pub fn lt(&self, other: &Scalar) -> (b: bool)
        ensures
            b == self.less(*other),
    {
        if self.nan() || other.nan() {
            return false;
        }
        if self.bits >= SIGN {
            if other.bits >= SIGN {
                other.bits < self.bits
            } else {
                self.bits > SIGN || other.bits > 0
            }
        } else {
            other.bits < SIGN && self.bits < other.bits
        }
    }

    /// Tests `self <= other`.
    pub fn le(&self, other: &Scalar) -> (b: bool)
        ensures
            b == self.at_most(*other),
    {
        if self.nan() || other.nan() {
            return false;
        }
        if self.bits >= SIGN {
            if other.bits >= SIGN {
                other.bits <= self.bits
            } else {
                true
            }
        } else {
            if other.bits >= SIGN {
                self.bits == 0 && other.bits == SIGN
            } else {
                self.bits <= other.bits
            }
        }
    }

    /// The quantity with its sign flipped.
    pub fn neg(&self) -> (s: Scalar)
        ensures
            s == self.flipped(),
    {
        if self.bits >= SIGN {
            Scalar { bits: self.bits - SIGN }
        } else {
            Scalar { bits: self.bits + SIGN }
        }
    }

    /// The quantity without its sign.
    pub fn abs(&self) -> (s: Scalar)
        ensures
            s.bits == self.magnitude(),
    {
        if self.bits >= SIGN {
            Scalar { bits: self.bits - SIGN }
        } else {
            Scalar { bits: self.bits }
        }
    }
}

/// Of two numbers exactly one of three holds: the first is below the second,
/// they are equal as numbers, or the second is below the first.
pub proof fn lemma_order_is_total(a: Scalar, b: Scalar)
    requires
        !a.is_nan(),
        !b.is_nan(),
    ensures
        a.less(b) || b.less(a) || a.key() == b.key(),
        !(a.less(b) && b.less(a)),
        a.at_most(b) <==> !b.less(a),
{
}

/// Flipping the sign mirrors a quantity about zero, and flipping twice gives
/// it back.
pub proof fn lemma_flip_mirrors(a: Scalar)
    ensures
        a.flipped().key() == -a.key(),
        a.flipped().is_nan() == a.is_nan(),
        a.flipped().flipped() == a,
{
}

/// The order is transitive, and a number is never below itself.
pub proof fn lemma_order_is_strict(a: Scalar, b: Scalar, c: Scalar)
    ensures
        !a.less(a),
        a.less(b) && b.less(c) ==> a.less(c),
        a.less(b) && b.at_most(c) ==> a.less(c),
        a.at_most(b) && b.less(c) ==> a.less(c),
        a.at_most(b) && b.at_most(c) ==> a.at_most(c),
{
}

/// A half-open range of quantities: from `min`, up to but not including `max`.
#[derive(Clone, Copy, Debug, PartialEq, Eq, Structural)]
pub struct Interval {
    pub min: Scalar,
    pub max: Scalar,
}

impl Interval {
    /// Whether `t` lies in the range: at least `min` and below `max`.
    pub open spec fn holds(self, t: Scalar) -> bool {
        self.min.at_most(t) && t.less(self.max)
    }

    /// The range from `min` up to `max`.
    pub fn new(min: Scalar, max: Scalar) -> (range: Interval)
        ensures
            range.min == min,
            range.max == max,
    {
        Interval { min, max }
    }

    /// The range from zero up to one.
    pub fn unit() -> (range: Interval)
        ensures
            range.min.bits == 0,
            range.max.bits == ONE,
    {
        Interval { min: Scalar::zero(), max: Scalar::one() }
    }

    /// Tests whether `t` lies in the range.
    pub fn contains(&self, t: &Scalar) -> (inside: bool)
        ensures
            inside == self.holds(*t),
    {
        self.min.le(t) && t.lt(&self.max)
    }
}

} // verus!
