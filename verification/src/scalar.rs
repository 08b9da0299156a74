//! Real quantities carried as IEEE 754 binary64 bit patterns.
//!
//! Verified code decides on signs, ranges and order without floating-point
//! hardware: every decision is taken on the 64-bit pattern and proved against
//! the number that the pattern stands for. A pattern that is not a NaN stands
//! for `units() / 2^1074`, where `units()` is an integer: the smallest positive
//! binary64 number is `2^-1074`, so every binary64 number is a whole multiple
//! of it. The two infinities take the places just beyond the largest finite
//! multiples, which keeps the order total on everything but NaN.

use vstd::arithmetic::power2::{
    lemma2_to64, lemma2_to64_rest, lemma_pow2_adds, lemma_pow2_pos, lemma_pow2_strictly_increases,
    lemma_pow2_unfold, pow2,
};
use vstd::prelude::*;
use vstd::std_specs::cmp::PartialEqSpecImpl;

verus! {

/// The sign bit of a binary64 pattern.
pub const SIGN_MASK: u64 = 0x8000_0000_0000_0000;

/// The pattern of positive infinity: every exponent bit set, no fraction bit.
pub const INFINITY_BITS: u64 = 0x7ff0_0000_0000_0000;

/// `2^52`: the weight of the lowest exponent bit, and the implicit leading
/// bit of a normal number's significand.
pub const IMPLICIT_BIT: u64 = 0x0010_0000_0000_0000;

/// The pattern of `1.0`.
pub const ONE_BITS: u64 = 0x3ff0_0000_0000_0000;

/// The exponent of the unit in which `Scalar::units` counts: a pattern stands
/// for `units() / 2^UNIT_EXPONENT`.
pub const UNIT_EXPONENT: u64 = 1074;

/// A real quantity, held as the bit pattern of an IEEE 754 binary64 number.
#[derive(Clone, Copy, Debug)]
pub struct Scalar {
    pub bits: u64,
}

impl Scalar {
    /// The pattern without its sign bit.
    pub open spec fn payload(self) -> u64 {
        if self.bits >= SIGN_MASK {
            (self.bits - SIGN_MASK) as u64
        } else {
            self.bits
        }
    }

    /// The biased exponent field, `0..=2047`.
    pub open spec fn exponent(self) -> nat {
        (self.payload() / IMPLICIT_BIT) as nat
    }

    /// The 52-bit fraction field.
    pub open spec fn fraction(self) -> nat {
        (self.payload() % IMPLICIT_BIT) as nat
    }

    /// The sign bit is set: a negative number, the negative zero, or a NaN
    /// that bears the sign.
    pub open spec fn spec_is_sign_negative(self) -> bool {
        self.bits >= SIGN_MASK
    }

    /// Not a number: the exponent field is full and the fraction is not zero.
    pub open spec fn spec_is_nan(self) -> bool {
        self.payload() > INFINITY_BITS
    }

    /// One of the two infinities.
    pub open spec fn spec_is_infinite(self) -> bool {
        self.payload() == INFINITY_BITS
    }

    /// A number that is not infinite: zero, subnormal or normal.
    pub open spec fn spec_is_finite(self) -> bool {
        self.payload() < INFINITY_BITS
    }

    /// The absolute value in units of `2^-1074`: the fraction itself for a
    /// subnormal, the significand scaled by the exponent for a normal number.
    pub open spec fn magnitude(self) -> nat {
        if self.exponent() == 0 {
            self.fraction()
        } else {
            (IMPLICIT_BIT as nat + self.fraction()) * pow2((self.exponent() - 1) as nat)
        }
    }

    /// The value in units of `2^-1074`. Meaningful for every pattern that is
    /// not a NaN.
    pub open spec fn units(self) -> int {
        if self.spec_is_sign_negative() {
            -(self.magnitude() as int)
        } else {
            self.magnitude() as int
        }
    }

    /// Both are numbers and `self` is the smaller one.
    pub open spec fn spec_lt(self, other: Scalar) -> bool {
        !self.spec_is_nan() && !other.spec_is_nan() && self.units() < other.units()
    }

    /// Both are numbers and `self` is not the larger one.
    pub open spec fn spec_le(self, other: Scalar) -> bool {
        !self.spec_is_nan() && !other.spec_is_nan() && self.units() <= other.units()
    }

    /// Both are numbers and they are the same number. The two zeros are equal;
    /// a NaN equals nothing.
    pub open spec fn spec_same_value(self, other: Scalar) -> bool {
        !self.spec_is_nan() && !other.spec_is_nan() && self.units() == other.units()
    }

    /// Either zero, whatever its sign.
    pub open spec fn spec_is_zero(self) -> bool {
        !self.spec_is_nan() && self.units() == 0
    }

    /// A finite number greater than zero.
    pub open spec fn spec_is_positive(self) -> bool {
        self.spec_is_finite() && self.units() > 0
    }

    /// A finite number less than zero.
    pub open spec fn spec_is_negative(self) -> bool {
        self.spec_is_finite() && self.units() < 0
    }

    /// The zero with the positive sign.
    pub open spec fn spec_zero() -> Scalar {
        Scalar { bits: 0 }
    }

    /// The number one.
    pub open spec fn spec_one() -> Scalar {
        Scalar { bits: ONE_BITS }
    }

    /// The same pattern with the sign bit cleared.
    pub open spec fn spec_abs(self) -> Scalar {
        Scalar { bits: self.payload() }
    }

    /// The scalar of the given pattern.
    pub fn from_bits(bits: u64) -> (s: Scalar)
        ensures
            s.bits == bits,
    {
        Scalar { bits }
    }

    /// The pattern.
    pub fn to_bits(self) -> (bits: u64)
        ensures
            bits == self.bits,
    {
        self.bits
    }

    /// The zero with the positive sign.
    #[verifier::when_used_as_spec(spec_zero)]
    pub fn zero() -> (s: Scalar)
        ensures
            s == Scalar::spec_zero(),
    {
        Scalar { bits: 0 }
    }

    /// The number one.
    #[verifier::when_used_as_spec(spec_one)]
    pub fn one() -> (s: Scalar)
        ensures
            s == Scalar::spec_one(),
    {
        Scalar { bits: ONE_BITS }
    }

    fn payload_bits(self) -> (p: u64)
        ensures
            p == self.payload(),
    {
        if self.bits >= SIGN_MASK {
            self.bits - SIGN_MASK
        } else {
            self.bits
        }
    }

    /// Whether the sign bit is set.
    #[verifier::when_used_as_spec(spec_is_sign_negative)]
    pub fn is_sign_negative(self) -> (r: bool)
        ensures
            r == self.spec_is_sign_negative(),
    {
        self.bits >= SIGN_MASK
    }

    /// Whether the pattern is not a number.
    #[verifier::when_used_as_spec(spec_is_nan)]
    pub fn is_nan(self) -> (r: bool)
        ensures
            r == self.spec_is_nan(),
    {
        self.payload_bits() > INFINITY_BITS
    }

    /// Whether the pattern is one of the two infinities.
    #[verifier::when_used_as_spec(spec_is_infinite)]
    pub fn is_infinite(self) -> (r: bool)
        ensures
            r == self.spec_is_infinite(),
    {
        self.payload_bits() == INFINITY_BITS
    }

    /// Whether the pattern is a number that is not infinite.
    #[verifier::when_used_as_spec(spec_is_finite)]
    pub fn is_finite(self) -> (r: bool)
        ensures
            r == self.spec_is_finite(),
    {
        self.payload_bits() < INFINITY_BITS
    }

    /// Either zero, whatever its sign.
    #[verifier::when_used_as_spec(spec_is_zero)]
    pub fn is_zero(self) -> (r: bool)
        ensures
            r == self.spec_is_zero(),
    {
        proof {
            lemma_magnitude_order(self, self);
        }
        self.payload_bits() == 0
    }

    /// Whether the pattern is a finite number greater than zero.
    #[verifier::when_used_as_spec(spec_is_positive)]
    pub fn is_positive(self) -> (r: bool)
        ensures
            r == self.spec_is_positive(),
    {
        proof {
            lemma_magnitude_order(self, self);
        }
        let p: u64 = self.payload_bits();
        self.bits < SIGN_MASK && 0 < p && p < INFINITY_BITS
    }

    /// Whether the pattern is a finite number less than zero.
    #[verifier::when_used_as_spec(spec_is_negative)]
    pub fn is_negative(self) -> (r: bool)
        ensures
            r == self.spec_is_negative(),
    {
        proof {
            lemma_magnitude_order(self, self);
        }
        let p: u64 = self.payload_bits();
        self.bits >= SIGN_MASK && 0 < p && p < INFINITY_BITS
    }

    /// The same number without its sign; a NaN stays a NaN.
    #[verifier::when_used_as_spec(spec_abs)]
    pub fn abs(self) -> (r: Scalar)
        ensures
            r == self.spec_abs(),
            r.spec_is_nan() == self.spec_is_nan(),
            r.units() == self.magnitude(),
            r.units() == if self.units() < 0 { -self.units() } else { self.units() },
    {
        Scalar { bits: self.payload_bits() }
    }

    /// Whether both are numbers and `self` is the smaller one, as `<` on
    /// binary64 has it.
    #[verifier::when_used_as_spec(spec_lt)]
    pub fn lt(self, other: Scalar) -> (r: bool)
        ensures
            r == self.spec_lt(other),
    {
        proof {
            lemma_magnitude_order(self, other);
            lemma_magnitude_order(other, self);
        }
        if self.is_nan() || other.is_nan() {
            return false;
        }
        let p: u64 = self.payload_bits();
        let q: u64 = other.payload_bits();
        if self.bits >= SIGN_MASK {
            if other.bits >= SIGN_MASK {
                q < p
            } else {
                p != 0 || q != 0
            }
        } else {
            other.bits < SIGN_MASK && p < q
        }
    }

    /// Whether both are numbers and `self` is not the larger one, as `<=` on
    /// binary64 has it.
    #[verifier::when_used_as_spec(spec_le)]
    pub fn le(self, other: Scalar) -> (r: bool)
        ensures
            r == self.spec_le(other),
    {
        if self.is_nan() || other.is_nan() {
            return false;
        }
        !other.lt(self)
    }

    /// Equality of the numbers, as `==` on binary64 has it.
    #[verifier::when_used_as_spec(spec_same_value)]
    pub fn same_value(self, other: Scalar) -> (r: bool)
        ensures
            r == self.spec_same_value(other),
    {
        proof {
            lemma_magnitude_order(self, other);
            lemma_magnitude_order(other, self);
        }
        if self.is_nan() || other.is_nan() {
            return false;
        }
        self.bits == other.bits || (self.payload_bits() == 0 && other.payload_bits() == 0)
    }
}

/// `==` compares the numbers, not the patterns: the two zeros are equal and a
/// NaN equals nothing, itself included.
impl PartialEq for Scalar {
    fn eq(&self, other: &Scalar) -> (r: bool) {
        self.same_value(*other)
    }
}

impl PartialEqSpecImpl for Scalar {
    open spec fn obeys_eq_spec() -> bool {
        true
    }

    open spec fn eq_spec(&self, other: &Scalar) -> bool {
        self.spec_same_value(*other)
    }
}

/// The fields of a pattern put it together again, and each stays in its range.
pub proof fn lemma_fields(x: Scalar)
    ensures
        x.payload() == x.exponent() * IMPLICIT_BIT + x.fraction(),
        x.fraction() < IMPLICIT_BIT,
        x.exponent() <= 2047,
        x.payload() < SIGN_MASK,
{
}

/// Below the next power of two: a pattern with exponent field `e` has a
/// magnitude under `2^52 * 2^e`.
proof fn lemma_magnitude_upper(x: Scalar)
    ensures
        x.magnitude() < IMPLICIT_BIT * pow2(x.exponent()),
{
    let e = x.exponent();
    let f = x.fraction();
    let h = IMPLICIT_BIT as nat;
    lemma_fields(x);
    if e == 0 {
        lemma2_to64();
    } else {
        let p = pow2((e - 1) as nat);
        lemma_pow2_pos((e - 1) as nat);
        lemma_pow2_unfold(e);
        assert((h + f) * p < h * (2 * p)) by (nonlinear_arith)
            requires
                f < h,
                p > 0,
        ;
    }
}

/// At or above its own power of two: a pattern with a non-zero exponent field
/// `e` has a magnitude of at least `2^52 * 2^(e-1)`.
proof fn lemma_magnitude_lower(x: Scalar)
    requires
        x.exponent() > 0,
    ensures
        x.magnitude() >= IMPLICIT_BIT * pow2((x.exponent() - 1) as nat),
{
    let f = x.fraction();
    let h = IMPLICIT_BIT as nat;
    let p = pow2((x.exponent() - 1) as nat);
    assert((h + f) * p >= h * p) by (nonlinear_arith);
}

/// The magnitude grows strictly with the pattern: on patterns without the sign
/// bit, the order of the integers is the order of the numbers they stand for.
pub proof fn lemma_magnitude_strictly_increases(x: Scalar, y: Scalar)
    requires
        x.payload() < y.payload(),
    ensures
        x.magnitude() < y.magnitude(),
{
    let ex = x.exponent();
    let ey = y.exponent();
    let fx = x.fraction();
    let fy = y.fraction();
    let h = IMPLICIT_BIT as nat;
    lemma_fields(x);
    lemma_fields(y);
    if ex == ey {
        assert(fx < fy);
        if ex > 0 {
            let p = pow2((ex - 1) as nat);
            lemma_pow2_pos((ex - 1) as nat);
            assert((h + fx) * p < (h + fy) * p) by (nonlinear_arith)
                requires
                    fx < fy,
                    p > 0,
            ;
        }
    } else {
        assert(ex < ey) by {
            if ex > ey {
                assert(x.payload() >= ex * IMPLICIT_BIT);
                assert(y.payload() < (ey + 1) * IMPLICIT_BIT);
            }
        }
        lemma_magnitude_upper(x);
        lemma_magnitude_lower(y);
        let px = pow2(ex);
        let py = pow2((ey - 1) as nat);
        assert(px <= py) by {
            if ex < ey - 1 {
                lemma_pow2_strictly_increases(ex, (ey - 1) as nat);
            }
        }
        assert(h * px <= h * py) by (nonlinear_arith)
            requires
                px <= py,
        ;
    }
}

/// On patterns taken without their sign bit, the order and equality of the
/// patterns are the order and equality of the magnitudes, and the zero pattern
/// alone stands for zero.
pub proof fn lemma_magnitude_order(x: Scalar, y: Scalar)
    ensures
        x.payload() < y.payload() <==> x.magnitude() < y.magnitude(),
        x.payload() == y.payload() <==> x.magnitude() == y.magnitude(),
        x.payload() == 0 <==> x.magnitude() == 0,
{
    if x.payload() < y.payload() {
        lemma_magnitude_strictly_increases(x, y);
    }
    if y.payload() < x.payload() {
        lemma_magnitude_strictly_increases(y, x);
    }
    let zero = Scalar { bits: 0 };
    assert(zero.magnitude() == 0);
    if zero.payload() < x.payload() {
        lemma_magnitude_strictly_increases(zero, x);
    }
}

/// The pattern of `1.0` stands for `2^1074` units, and the zero pattern for
/// none: a pattern `x` stands for the number `x.units() / 2^1074`.
pub proof fn lemma_unit_values()
    ensures
        Scalar::spec_zero().units() == 0,
        Scalar::spec_one().units() == pow2(UNIT_EXPONENT as nat),
        Scalar::spec_one().spec_is_finite(),
        Scalar::spec_zero().spec_is_finite(),
{
    let one = Scalar::spec_one();
    assert(one.exponent() == 1023);
    assert(one.fraction() == 0);
    lemma2_to64_rest();
    lemma_pow2_adds(52, 1022);
}

} // verus!
