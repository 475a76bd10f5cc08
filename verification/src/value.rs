//! The numbers behind the patterns.
//!
//! A finite binary32 pattern stands for a whole multiple of 2^-149, so the
//! number it encodes can be named in integers. This module names it, shows
//! that the rank of a pattern orders the patterns exactly as their numbers
//! are ordered, and takes the whole part of a number, which is how a number
//! becomes an index or a colour channel.
use vstd::prelude::*;
use vstd::arithmetic::div_mod::lemma_div_by_multiple;
use vstd::arithmetic::div_mod::lemma_div_multiples_vanish_quotient;
use vstd::arithmetic::mul::lemma_mul_inequality;
use vstd::arithmetic::mul::lemma_mul_strict_inequality;
use vstd::arithmetic::power2::lemma2_to64;
use vstd::arithmetic::power2::lemma_pow2_adds;
use vstd::arithmetic::power2::lemma_pow2_pos;
use vstd::arithmetic::power2::lemma_pow2_strictly_increases;
use vstd::arithmetic::power2::lemma_pow2_unfold;
use vstd::arithmetic::power2::pow2;
use vstd::bits::lemma_u32_shr_is_div;
use vstd::bits::lemma_u64_shl_is_mul;
use crate::scalar::Scalar;
use crate::scalar::INFINITY_BITS;
use crate::scalar::SIGN_BIT;

verus! {

/// Two to the power 23: the number of patterns that share an exponent.
pub const MANTISSA_SPAN: u32 = 0x80_0000;

/// The exponent field of the number one.
pub const EXPONENT_OF_ONE: u32 = 127;

/// Two to the power 24: every whole number of lesser size has a pattern.
pub const WHOLE_LIMIT: i32 = 0x100_0000;

impl Scalar {
    /// The pattern encodes a number that is not infinite.
    pub open spec fn finite(self) -> bool {
        self.magnitude() < INFINITY_BITS
    }

    /// The exponent field of the pattern, from 0 to 255.
    pub open spec fn exponent(self) -> int {
        self.magnitude() / (MANTISSA_SPAN as int)
    }

    /// The mantissa field of the pattern, below two to the power 23.
    pub open spec fn mantissa(self) -> int {
        self.magnitude() % (MANTISSA_SPAN as int)
    }

    /// The size of the number, counted in units of 2^-149.
    pub open spec fn units(self) -> int {
        if self.exponent() == 0 {
            self.mantissa()
        } else {
            (MANTISSA_SPAN + self.mantissa()) * (pow2((self.exponent() - 1) as nat) as int)
        }
    }

    /// The number that a finite pattern encodes, counted in units of 2^-149.
    pub open spec fn scaled(self) -> int {
        if self.sign() {
            -self.units()
        } else {
            self.units()
        }
    }

    /// The whole part of the size of the number.
    pub open spec fn whole(self) -> int {
        self.units() / (pow2(149) as int)
    }

    /// The pattern encodes the whole number `n`.
    pub open spec fn encodes(self, n: int) -> bool {
        self.finite() && self.scaled() == n * pow2(149)
    }

    /// The pattern that encodes the whole number `n`, with the positive zero
    /// for zero. Where `n` has a pattern it has no other, see
    /// [`lemma_one_pattern_per_number`].
    pub open spec fn of_int(n: int) -> Scalar {
        choose|s: Scalar| s.encodes(n) && s.bits != SIGN_BIT
    }

    /// The pattern of a whole number of less than 24 bits: every such number
    /// has a pattern that encodes it exactly. Zero gets the positive zero.
    pub fn from_int(n: i32) -> (r: Scalar)
        requires
            -(WHOLE_LIMIT as int) < n < WHOLE_LIMIT,
        ensures
            r.encodes(n as int),
            r == Scalar::of_int(n as int),
            n == 0 ==> r == Scalar::zero_spec(),
    {
        if n == 0 {
            proof {
                lemma_units_of_zero(Scalar { bits: 0 });
                lemma_one_pattern_per_number(Scalar { bits: 0 }, 0);
            }
            return Scalar { bits: 0 };
        }
        let size: u32 = if n < 0 {
            (0 - n) as u32
        } else {
            n as u32
        };
        let mut k: u32 = 0;
        let mut top: u32 = 1;
        let mut scale: u32 = MANTISSA_SPAN;
        proof {
            lemma2_to64();
        }
        while top * 2 <= size
            invariant
                0 < size < WHOLE_LIMIT,
                k <= 23,
                top == pow2(k as nat),
                scale == pow2((23 - k) as nat),
                top * scale == MANTISSA_SPAN,
                top <= size,
            decreases 23 - k,
        {
            proof {
                lemma2_to64();
                lemma_pow2_unfold((k + 1) as nat);
                assert(k < 23);
                lemma_pow2_unfold((23 - k) as nat);
                let half = pow2((22 - k) as nat) as int;
                assert(scale == 2 * half);
                assert((top * 2) * half == top * (2 * half)) by (nonlinear_arith);
            }
            top = top * 2;
            scale = scale / 2;
            k = k + 1;
        }
        proof {
            assert(MANTISSA_SPAN <= size * scale < 2 * MANTISSA_SPAN) by (nonlinear_arith)
                requires
                    top <= size < 2 * top,
                    top * scale == MANTISSA_SPAN,
                    0 < scale,
                    0 < top,
            ;
        }
        let sig: u32 = size * scale;
        let field: u32 = (EXPONENT_OF_ONE + k) * MANTISSA_SPAN + (sig - MANTISSA_SPAN);
        let r: Scalar = if n < 0 {
            Scalar { bits: field + SIGN_BIT }
        } else {
            Scalar { bits: field }
        };
        proof {
            assert(r.magnitude() == field);
            assert(r.exponent() == EXPONENT_OF_ONE + k);
            assert(r.mantissa() == sig - MANTISSA_SPAN);
            let low = pow2((23 - k) as nat) as int;
            let high = pow2((126 + k) as nat) as int;
            lemma_pow2_adds((23 - k) as nat, (126 + k) as nat);
            assert(r.units() == sig * high);
            assert((size * low) * high == size * (low * high)) by (nonlinear_arith);
            assert(r.units() == size * pow2(149));
            assert((0 - size) * pow2(149) == -(size * pow2(149))) by (nonlinear_arith);
            lemma_one_pattern_per_number(r, n as int);
        }
        r
    }

    /// The number as an index: its whole part, as far as an index can hold
    /// it. What is below zero or no number gives zero, what is too large
    /// gives the largest index.
    pub open spec fn index_spec(self) -> int {
        if self.nan() || self.sign() {
            0
        } else if !self.finite() || self.whole() > usize::MAX {
            usize::MAX as int
        } else {
            self.whole()
        }
    }

    /// The number as an index, see [`Scalar::index_spec`]. This is what
    /// remains of a number that is cut off at the point and stored in an
    /// unsigned machine word.
    pub fn to_index(self) -> (r: usize)
        ensures
            r == self.index_spec(),
    {
        if self.is_nan() || self.bits >= SIGN_BIT {
            return 0;
        }
        let e: u32 = self.bits / MANTISSA_SPAN;
        let m: u32 = self.bits % MANTISSA_SPAN;
        let sig: u32 = MANTISSA_SPAN + m;
        if e < EXPONENT_OF_ONE {
            proof {
                lemma_whole_below_one(self);
            }
            0
        } else if e <= 150 {
            let shift: u32 = 150 - e;
            proof {
                lemma_whole_shifts_right(self);
                lemma_u32_shr_is_div(sig, shift);
                lemma2_to64();
                assert(sig as nat / pow2(shift as nat) <= sig as nat) by {
                    lemma_pow2_pos(shift as nat);
                    lemma_div_at_most(sig as nat, pow2(shift as nat));
                }
            }
            let w: u32 = sig >> shift;
            w as usize
        } else if e <= 190 {
            let shift: u64 = (e - 150) as u64;
            let wide_sig: u64 = sig as u64;
            proof {
                lemma_whole_shifts_left(self);
                lemma_pow2_at_most(shift as nat, 40);
                lemma_pow2_adds(8, 32);
                lemma2_to64();
                assert(wide_sig * pow2(shift as nat) <= 0xff_ffff * 0x100_0000_0000) by (nonlinear_arith)
                    requires
                        wide_sig <= 0xff_ffff,
                        pow2(shift as nat) <= 0x100_0000_0000,
                ;
                lemma_u64_shl_is_mul(wide_sig, shift);
            }
            let wide: u64 = wide_sig << shift;
            if wide > usize::MAX as u64 {
                usize::MAX
            } else {
                wide as usize
            }
        } else {
            proof {
                if self.finite() {
                    lemma_whole_shifts_left(self);
                    lemma_pow2_at_most(41, (e - 150) as nat);
                    lemma_pow2_adds(9, 32);
                    lemma2_to64();
                    assert(sig * pow2((e - 150) as nat) >= 0x80_0000 * 0x200_0000_0000) by (nonlinear_arith)
                        requires
                            sig >= 0x80_0000,
                            pow2((e - 150) as nat) >= 0x200_0000_0000,
                    ;
                }
            }
            usize::MAX
        }
    }
}

/// A quotient by a positive whole number is no more than what was divided.
proof fn lemma_div_at_most(x: nat, d: nat)
    requires
        d > 0,
    ensures
        x / d <= x,
{
    assert(x / d <= x) by (nonlinear_arith)
        requires
            d > 0,
            x >= 0,
    ;
}

/// The powers of two do not fall.
proof fn lemma_pow2_at_most(e1: nat, e2: nat)
    requires
        e1 <= e2,
    ensures
        pow2(e1) <= pow2(e2),
        pow2(e1) > 0,
{
    lemma_pow2_pos(e1);
    if e1 < e2 {
        lemma_pow2_strictly_increases(e1, e2);
    }
}

/// The fields of a pattern make up its magnitude.
proof fn lemma_fields(x: Scalar)
    ensures
        x.magnitude() == x.exponent() * MANTISSA_SPAN + x.mantissa(),
        x.mantissa() < MANTISSA_SPAN,
        x.exponent() <= 255,
        x.finite() <==> x.exponent() < 255,
{
}

/// Of two patterns, the one of greater magnitude encodes the number of
/// greater size.
pub proof fn lemma_units_grow(a: Scalar, b: Scalar)
    requires
        a.magnitude() < b.magnitude(),
    ensures
        a.units() < b.units(),
{
    lemma_fields(a);
    lemma_fields(b);
    let span = MANTISSA_SPAN as int;
    let ea = a.exponent();
    let eb = b.exponent();
    let ma = a.mantissa();
    let mb = b.mantissa();
    if ea == eb {
        if ea > 0 {
            let p = pow2((ea - 1) as nat) as int;
            lemma_pow2_pos((ea - 1) as nat);
            lemma_mul_strict_inequality(span + ma, span + mb, p);
        }
    } else {
        assert(ea < eb);
        let pb = pow2((eb - 1) as nat) as int;
        lemma_pow2_pos((eb - 1) as nat);
        lemma_mul_inequality(span, span + mb, pb);
        assert(span * pb <= b.units());
        assert(span * 1 <= span * pb) by (nonlinear_arith)
            requires
                1 <= pb,
                0 <= span,
        ;
        if ea > 0 {
            let pa = pow2((ea - 1) as nat) as int;
            lemma_pow2_pos((ea - 1) as nat);
            lemma_pow2_unfold(ea as nat);
            lemma_pow2_at_most(ea as nat, (eb - 1) as nat);
            lemma_mul_strict_inequality(span + ma, 2 * span, pa);
            assert((2 * span) * pa == span * (2 * pa)) by (nonlinear_arith);
            assert(span * (2 * pa) <= span * pb) by (nonlinear_arith)
                requires
                    2 * pa <= pb,
                    0 <= span,
            ;
        }
    }
}

/// Only the zeros encode a number of no size.
pub proof fn lemma_units_of_zero(a: Scalar)
    ensures
        a.units() == 0 <==> a.magnitude() == 0,
{
    let zero = Scalar { bits: 0 };
    assert(zero.units() == 0);
    if a.magnitude() > 0 {
        lemma_units_grow(zero, a);
    } else {
        assert(a.exponent() == 0 && a.mantissa() == 0);
    }
}

/// The rank orders the patterns as their numbers are ordered: one pattern has
/// the lesser rank exactly where it encodes the lesser number, and two
/// patterns have the same rank exactly where they encode the same number.
pub proof fn lemma_rank_orders_numbers(a: Scalar, b: Scalar)
    ensures
        a.rank() < b.rank() <==> a.scaled() < b.scaled(),
        a.rank() == b.rank() <==> a.scaled() == b.scaled(),
{
    lemma_units_of_zero(a);
    lemma_units_of_zero(b);
    if a.magnitude() < b.magnitude() {
        lemma_units_grow(a, b);
    } else if b.magnitude() < a.magnitude() {
        lemma_units_grow(b, a);
    }
}

/// A whole number has one pattern at most, but for zero, which has two: the
/// pattern that encodes `n` and is not the negative zero is the only such.
pub proof fn lemma_one_pattern_per_number(a: Scalar, n: int)
    requires
        a.encodes(n),
        a.bits != SIGN_BIT,
    ensures
        Scalar::of_int(n) == a,
        forall|b: Scalar| b.encodes(n) && b.bits != SIGN_BIT ==> b == a,
{
    assert forall|b: Scalar| b.encodes(n) && b.bits != SIGN_BIT implies b == a by {
        lemma_rank_orders_numbers(a, b);
    }
}

/// The comparisons of patterns are the comparisons of their numbers.
pub proof fn lemma_less_is_less(a: Scalar, b: Scalar)
    requires
        a.finite(),
        b.finite(),
    ensures
        a.less(b) <==> a.scaled() < b.scaled(),
        a.less_eq(b) <==> a.scaled() <= b.scaled(),
        a.equal(b) <==> a.scaled() == b.scaled(),
{
    lemma_rank_orders_numbers(a, b);
}

/// Clearing the sign bit gives the size of the number, flipping it gives the
/// opposite number.
pub proof fn lemma_abs_and_neg(a: Scalar)
    ensures
        a.abs_of().scaled() == if a.scaled() < 0 { -a.scaled() } else { a.scaled() },
        a.neg_of().scaled() == -a.scaled(),
        a.abs_of().finite() == a.finite(),
        a.neg_of().finite() == a.finite(),
{
    lemma_units_of_zero(a);
    if a.magnitude() > 0 {
        lemma_units_grow(Scalar { bits: 0 }, a);
    }
    assert(a.abs_of().magnitude() == a.magnitude());
    assert(a.neg_of().magnitude() == a.magnitude());
}

/// Every finite number lies between the infinities.
pub proof fn lemma_infinities_bound(a: Scalar)
    requires
        a.finite(),
    ensures
        Scalar::neg_infinity_spec().less(a),
        a.less(Scalar::infinity_spec()),
{
}

/// Of two patterns, the one of greater magnitude encodes the number with the
/// greater whole part, or with the same.
pub proof fn lemma_whole_grows(a: Scalar, b: Scalar)
    requires
        a.magnitude() <= b.magnitude(),
    ensures
        0 <= a.whole() <= b.whole(),
{
    lemma_fields(a);
    lemma_fields(b);
    lemma_pow2_pos(149);
    lemma_units_of_zero(a);
    if a.magnitude() < b.magnitude() {
        lemma_units_grow(a, b);
    } else {
        assert(a.exponent() == b.exponent() && a.mantissa() == b.mantissa());
    }
    if a.magnitude() > 0 {
        lemma_units_grow(Scalar { bits: 0 }, a);
    }
    vstd::arithmetic::div_mod::lemma_div_is_ordered(a.units(), b.units(), pow2(149) as int);
    vstd::arithmetic::div_mod::lemma_div_pos_is_pos(a.units(), pow2(149) as int);
}

/// The pattern of one encodes the number one: 2^149 units of 2^-149.
pub proof fn lemma_one_is_one()
    ensures
        Scalar::one_spec().scaled() == pow2(149),
        Scalar::one_spec().whole() == 1,
        Scalar::zero_spec().scaled() == 0,
{
    let one = Scalar::one_spec();
    assert(one.exponent() == 127 && one.mantissa() == 0);
    lemma_pow2_adds(23, 126);
    lemma2_to64();
    lemma_pow2_pos(149);
    assert(pow2(149) / pow2(149) == 1) by (nonlinear_arith)
        requires
            pow2(149) > 0,
    ;
}

/// A number below one has no whole part.
pub proof fn lemma_whole_below_one(x: Scalar)
    requires
        x.exponent() < EXPONENT_OF_ONE,
    ensures
        x.whole() == 0,
{
    let one = Scalar::one_spec();
    assert(x.magnitude() < one.magnitude());
    lemma_units_grow(Scalar { bits: x.magnitude() as u32 }, one);
    assert((Scalar { bits: x.magnitude() as u32 }).units() == x.units());
    lemma_one_is_one();
    vstd::arithmetic::div_mod::lemma_basic_div(x.units(), pow2(149) as int);
}

/// From one up to the 24 bits of the mantissa, the whole part is the leading
/// bits of the mantissa, the hidden bit included.
pub proof fn lemma_whole_shifts_right(x: Scalar)
    requires
        EXPONENT_OF_ONE <= x.exponent() <= 150,
    ensures
        x.whole() == (MANTISSA_SPAN + x.mantissa()) / (pow2((150 - x.exponent()) as nat) as int),
{
    let e = x.exponent();
    let sig = MANTISSA_SPAN + x.mantissa();
    let low = pow2((e - 1) as nat) as int;
    let cut = pow2((150 - e) as nat) as int;
    lemma_pow2_pos((e - 1) as nat);
    lemma_pow2_pos((150 - e) as nat);
    lemma_pow2_adds((e - 1) as nat, (150 - e) as nat);
    assert(pow2(149) == low * cut);
    lemma_div_multiples_vanish_quotient(low, sig, cut);
    assert(sig * low == low * sig) by (nonlinear_arith);
}

/// Beyond the 24 bits of the mantissa, a number is whole.
pub proof fn lemma_whole_shifts_left(x: Scalar)
    requires
        150 <= x.exponent(),
    ensures
        x.whole() == (MANTISSA_SPAN + x.mantissa()) * (pow2((x.exponent() - 150) as nat) as int),
{
    let e = x.exponent();
    let sig = MANTISSA_SPAN + x.mantissa();
    let up = pow2((e - 150) as nat) as int;
    let unit = pow2(149) as int;
    lemma_pow2_pos((e - 150) as nat);
    lemma_pow2_pos(149);
    lemma_pow2_adds((e - 150) as nat, 149);
    assert(pow2((e - 1) as nat) == up * unit);
    assert(sig * (up * unit) == (sig * up) * unit) by (nonlinear_arith);
    assert(0 <= sig * up) by (nonlinear_arith)
        requires
            0 <= sig,
            0 <= up,
    ;
    lemma_div_by_multiple(sig * up, unit);
}

} // verus!
