//! Single-precision numbers as the kernel sees them.
//!
//! The kernel never does arithmetic on the numbers of a scene. It decides:
//! which of two distances is nearer, whether a direction is parallel to a
//! slab, whether a surface is opaque. Every such decision is a comparison,
//! and a comparison of two IEEE-754 binary32 numbers can be read off their
//! bit patterns with integer operations alone. A [`Scalar`] is such a
//! pattern. Callers obtain one from a number with `to_bits` and turn one
//! back with `from_bits`; sums, products and quotients are theirs to compute.
use vstd::prelude::*;

verus! {

/// The sign bit of a pattern.
pub const SIGN_BIT: u32 = 0x8000_0000;

/// The pattern of positive infinity. A larger magnitude encodes a NaN.
pub const INFINITY_BITS: u32 = 0x7f80_0000;

/// The pattern of negative infinity.
pub const NEG_INFINITY_BITS: u32 = 0xff80_0000;

/// The pattern of the number one.
pub const ONE_BITS: u32 = 0x3f80_0000;

/// An IEEE-754 binary32 bit pattern.
///
/// The derived `==` compares patterns: it tells `-0.0` from `0.0` and finds a
/// NaN equal to itself. The comparisons of the numbers themselves are
/// [`Scalar::lt`], [`Scalar::le`], [`Scalar::gt`] and [`Scalar::ge`].
#[derive(Clone, Copy, Debug, PartialEq, Eq, Structural)]
pub struct Scalar {
    pub bits: u32,
}

impl Scalar {
    /// The pattern without its sign bit.
    pub open spec fn magnitude(self) -> int {
        if self.bits >= SIGN_BIT {
            self.bits - SIGN_BIT
        } else {
            self.bits as int
        }
    }

    /// The sign bit is set. This holds of `-0.0` and of half the NaNs too.
    pub open spec fn sign(self) -> bool {
        self.bits >= SIGN_BIT
    }

    /// The pattern encodes no number.
    pub open spec fn nan(self) -> bool {
        self.magnitude() > INFINITY_BITS
    }

    /// An integer that orders the patterns of numbers as the numbers are
    /// ordered, infinities included. Both zeros have rank 0.
    pub open spec fn rank(self) -> int {
        if self.sign() {
            -self.magnitude()
        } else {
            self.magnitude()
        }
    }

    /// `self < other` as numbers: false whenever either is a NaN.
    pub open spec fn less(self, other: Scalar) -> bool {
        !self.nan() && !other.nan() && self.rank() < other.rank()
    }

    /// `self <= other` as numbers: false whenever either is a NaN.
    pub open spec fn less_eq(self, other: Scalar) -> bool {
        !self.nan() && !other.nan() && self.rank() <= other.rank()
    }

    /// `self == other` as numbers: the zeros are equal, a NaN equals nothing.
    pub open spec fn equal(self, other: Scalar) -> bool {
        !self.nan() && !other.nan() && self.rank() == other.rank()
    }

    /// The pattern with the sign bit cleared.
    pub open spec fn abs_of(self) -> Scalar {
        Scalar { bits: self.magnitude() as u32 }
    }

    /// The pattern with the sign bit flipped.
    pub open spec fn neg_of(self) -> Scalar {
        if self.sign() {
            Scalar { bits: (self.bits - SIGN_BIT) as u32 }
        } else {
            Scalar { bits: (self.bits + SIGN_BIT) as u32 }
        }
    }

    /// The greater of two numbers. A NaN loses to a number; of two equal
    /// numbers the first is kept.
    pub open spec fn max_of(self, other: Scalar) -> Scalar {
        if self.nan() {
            other
        } else if other.nan() {
            self
        } else if self.rank() < other.rank() {
            other
        } else {
            self
        }
    }

    /// The lesser of two numbers. A NaN loses to a number; of two equal
    /// numbers the first is kept.
    pub open spec fn min_of(self, other: Scalar) -> Scalar {
        if self.nan() {
            other
        } else if other.nan() {
            self
        } else if other.rank() < self.rank() {
            other
        } else {
            self
        }
    }

    /// `self` held between `lo` and `hi`. A NaN passes through unchanged.
    pub open spec fn clamp_of(self, lo: Scalar, hi: Scalar) -> Scalar {
        if self.less(lo) {
            lo
        } else if hi.less(self) {
            hi
        } else {
            self
        }
    }

    /// The pattern of positive zero.
    pub open spec fn zero_spec() -> Scalar {
        Scalar { bits: 0 }
    }

    /// The pattern of the number one.
    pub open spec fn one_spec() -> Scalar {
        Scalar { bits: ONE_BITS }
    }

    /// The pattern of positive infinity.
    pub open spec fn infinity_spec() -> Scalar {
        Scalar { bits: INFINITY_BITS }
    }

    /// The pattern of negative infinity.
    pub open spec fn neg_infinity_spec() -> Scalar {
        Scalar { bits: NEG_INFINITY_BITS }
    }

    /// Wraps a pattern.
    pub fn from_bits(bits: u32) -> (r: Scalar)
        ensures
            r.bits == bits,
    {
        Scalar { bits }
    }

    /// The pattern.
    pub fn to_bits(self) -> (r: u32)
        ensures
            r == self.bits,
    {
        self.bits
    }

    /// Positive zero.
    #[verifier::when_used_as_spec(zero_spec)]
    pub fn zero() -> (r: Scalar)
        ensures
            r == Scalar::zero_spec(),
    {
        Scalar { bits: 0 }
    }

    /// The number one.
    #[verifier::when_used_as_spec(one_spec)]
    pub fn one() -> (r: Scalar)
        ensures
            r == Scalar::one_spec(),
    {
        Scalar { bits: ONE_BITS }
    }

    /// Positive infinity.
    #[verifier::when_used_as_spec(infinity_spec)]
    pub fn infinity() -> (r: Scalar)
        ensures
            r == Scalar::infinity_spec(),
    {
        Scalar { bits: INFINITY_BITS }
    }

    /// Negative infinity.
    #[verifier::when_used_as_spec(neg_infinity_spec)]
    pub fn neg_infinity() -> (r: Scalar)
        ensures
            r == Scalar::neg_infinity_spec(),
    {
        Scalar { bits: NEG_INFINITY_BITS }
    }

    /// Whether the pattern encodes no number.
    #[verifier::when_used_as_spec(nan)]
    pub fn is_nan(self) -> (r: bool)
        ensures
            r == self.nan(),
    {
        let m: u32 = if self.bits >= SIGN_BIT {
            self.bits - SIGN_BIT
        } else {
            self.bits
        };
        m > INFINITY_BITS
    }

    /// The rank of the pattern, see [`Scalar::rank`].
    pub fn order_key(self) -> (r: i64)
        ensures
            r == self.rank(),
    {
        if self.bits >= SIGN_BIT {
            let m: u32 = self.bits - SIGN_BIT;
            let k: i64 = m as i64;
            -k
        } else {
            self.bits as i64
        }
    }

    /// `self < other` as numbers.
    pub fn lt(self, other: Scalar) -> (r: bool)
        ensures
            r == self.less(other),
    {
        !self.is_nan() && !other.is_nan() && self.order_key() < other.order_key()
    }

    /// `self <= other` as numbers.
    pub fn le(self, other: Scalar) -> (r: bool)
        ensures
            r == self.less_eq(other),
    {
        !self.is_nan() && !other.is_nan() && self.order_key() <= other.order_key()
    }

    /// `self > other` as numbers.
    pub fn gt(self, other: Scalar) -> (r: bool)
        ensures
            r == other.less(self),
    {
        other.lt(self)
    }

    /// `self >= other` as numbers.
    pub fn ge(self, other: Scalar) -> (r: bool)
        ensures
            r == other.less_eq(self),
    {
        other.le(self)
    }

    /// The absolute value: the sign bit is cleared, nothing else changes.
    pub fn abs(self) -> (r: Scalar)
        ensures
            r == self.abs_of(),
            r.nan() == self.nan(),
            !self.nan() ==> r.rank() == if self.rank() < 0 { -self.rank() } else { self.rank() },
    {
        if self.bits >= SIGN_BIT {
            Scalar { bits: self.bits - SIGN_BIT }
        } else {
            self
        }
    }

    /// The negation: the sign bit is flipped, nothing else changes.
    pub fn neg(self) -> (r: Scalar)
        ensures
            r == self.neg_of(),
            r.nan() == self.nan(),
            r.rank() == -self.rank(),
    {
        if self.bits >= SIGN_BIT {
            Scalar { bits: self.bits - SIGN_BIT }
        } else {
            Scalar { bits: self.bits + SIGN_BIT }
        }
    }

    /// The greater of two numbers, see [`Scalar::max_of`].
    pub fn max(self, other: Scalar) -> (r: Scalar)
        ensures
            r == self.max_of(other),
            r == self || r == other,
            !self.nan() ==> r.less_eq(r) && self.less_eq(r),
            !other.nan() ==> r.less_eq(r) && other.less_eq(r),
    {
        if self.is_nan() {
            other
        } else if other.is_nan() {
            self
        } else if self.order_key() < other.order_key() {
            other
        } else {
            self
        }
    }

    /// The lesser of two numbers, see [`Scalar::min_of`].
    pub fn min(self, other: Scalar) -> (r: Scalar)
        ensures
            r == self.min_of(other),
            r == self || r == other,
            !self.nan() ==> r.less_eq(r) && r.less_eq(self),
            !other.nan() ==> r.less_eq(r) && r.less_eq(other),
    {
        if self.is_nan() {
            other
        } else if other.is_nan() {
            self
        } else if other.order_key() < self.order_key() {
            other
        } else {
            self
        }
    }

    /// `self` held between `lo` and `hi`, see [`Scalar::clamp_of`].
    pub fn clamp(self, lo: Scalar, hi: Scalar) -> (r: Scalar)
        requires
            lo.less_eq(hi),
        ensures
            r == self.clamp_of(lo, hi),
            self.nan() ==> r == self,
            !self.nan() ==> lo.less_eq(r) && r.less_eq(hi),
    {
        if self.lt(lo) {
            lo
        } else if self.gt(hi) {
            hi
        } else {
            self
        }
    }
}

} // verus!
