//! IEEE-754 binary64 values as bit patterns.
//!
//! A [`Binary64`] is the 64-bit encoding of a double-precision number: one
//! sign bit, eleven exponent bits and fifty-two fraction bits. The functions
//! here never do arithmetic on such a value. They classify it, compare it
//! and change its sign, all of which the encoding determines exactly.
use vstd::arithmetic::mul::{lemma_mul_inequality, lemma_mul_strict_inequality};
use vstd::arithmetic::power2::{pow2, lemma_pow2_pos, lemma_pow2_strictly_increases, lemma_pow2_unfold};
use vstd::prelude::*;

verus! {

/// The bit that holds the sign.
pub const SIGN_BIT: u64 = 0x8000_0000_0000_0000;

/// Magnitude bits of an infinity; every larger magnitude encodes a NaN.
pub const INFINITY_BITS: u64 = 0x7FF0_0000_0000_0000;

/// Two to the power 52: the weight of the lowest exponent bit.
pub const HIDDEN_BIT: u64 = 0x0010_0000_0000_0000;

/// Encoding of `+0.0`.
pub const ZERO_BITS: u64 = 0;

/// Encoding of `1.0`.
pub const ONE_BITS: u64 = 0x3FF0_0000_0000_0000;

/// A double-precision number, held as its encoding.
#[derive(Clone, Copy, Debug, PartialEq, Eq, Structural, Hash)]
pub struct Binary64 {
    pub bits: u64,
}

impl Binary64 {
    /// Whether the sign bit is set. True of `-0.0` and of negative NaNs too.
    pub open spec fn sign(self) -> bool {
        self.bits >= SIGN_BIT
    }

    /// The encoding without its sign bit.
    pub open spec fn magnitude(self) -> u64 {
        if self.bits >= SIGN_BIT {
            (self.bits - SIGN_BIT) as u64
        } else {
            self.bits
        }
    }

    /// Whether the value is not a number.
    pub open spec fn nan(self) -> bool {
        self.magnitude() > INFINITY_BITS
    }

    /// Whether the value is `+0.0` or `-0.0`.
    pub open spec fn zero(self) -> bool {
        self.magnitude() == 0
    }

    /// Whether the value is neither an infinity nor a NaN.
    pub open spec fn finite(self) -> bool {
        self.magnitude() < INFINITY_BITS
    }

    /// The eleven exponent bits.
    pub open spec fn exponent_field(self) -> nat {
        (self.magnitude() / HIDDEN_BIT) as nat
    }

    /// The fifty-two fraction bits.
    pub open spec fn fraction_field(self) -> nat {
        (self.magnitude() % HIDDEN_BIT) as nat
    }

    /// The absolute value of a finite number, in units of two to the power
    /// -1074: the fraction alone for a subnormal number, the fraction under
    /// its hidden bit, shifted by the exponent, for a normal one.
    pub open spec fn scaled_magnitude(self) -> nat {
        if self.exponent_field() == 0 {
            self.fraction_field()
        } else {
            (HIDDEN_BIT as nat + self.fraction_field()) * pow2((self.exponent_field() - 1) as nat)
        }
    }

    /// The value of a finite number, in units of two to the power -1074.
    pub open spec fn scaled_value(self) -> int {
        if self.sign() {
            -(self.scaled_magnitude() as int)
        } else {
            self.scaled_magnitude() as int
        }
    }

    /// Position of the value on the extended real line, for values other
    /// than NaN: two such values are ordered as their ranks are, and both
    /// zeros have rank 0.
    pub open spec fn rank(self) -> int {
        if self.sign() {
            -(self.magnitude() as int)
        } else {
            self.magnitude() as int
        }
    }

    /// `self < other` as IEEE-754 defines it: false when either is NaN.
    pub open spec fn spec_lt(self, other: Self) -> bool {
        !self.nan() && !other.nan() && self.rank() < other.rank()
    }

    /// `self <= other` as IEEE-754 defines it: false when either is NaN.
    pub open spec fn spec_le(self, other: Self) -> bool {
        !self.nan() && !other.nan() && self.rank() <= other.rank()
    }

    /// `self > other` as IEEE-754 defines it.
    pub open spec fn spec_gt(self, other: Self) -> bool {
        other.spec_lt(self)
    }

    /// `self >= other` as IEEE-754 defines it.
    pub open spec fn spec_ge(self, other: Self) -> bool {
        other.spec_le(self)
    }

    /// The value with its sign bit cleared.
    pub open spec fn spec_abs(self) -> Self {
        Binary64 { bits: self.magnitude() }
    }

    /// The value with its sign bit flipped.
    pub open spec fn spec_neg(self) -> Self {
        if self.bits >= SIGN_BIT {
            Binary64 { bits: (self.bits - SIGN_BIT) as u64 }
        } else {
            Binary64 { bits: (self.bits + SIGN_BIT) as u64 }
        }
    }

    /// The magnitude of `self` under the sign bit of `sign`.
    pub open spec fn spec_copysign(self, sign: Self) -> Self {
        if sign.sign() {
            Binary64 { bits: (self.magnitude() + SIGN_BIT) as u64 }
        } else {
            Binary64 { bits: self.magnitude() }
        }
    }

    /// `self` limited to `[low, high]`: `low` where `self < low`, `high`
    /// where `self > high`, and `self` itself otherwise, NaN included.
    pub open spec fn spec_clamp(self, low: Self, high: Self) -> Self {
        if self.spec_lt(low) {
            low
        } else if self.spec_gt(high) {
            high
        } else {
            self
        }
    }

    /// The value encoded by `bits`.
    pub fn from_bits(bits: u64) -> (value: Self)
        ensures
            value.bits == bits,
    {
        Binary64 { bits }
    }

    /// The encoding of the value.
    pub fn to_bits(self) -> (bits: u64)
        ensures
            bits == self.bits,
    {
        self.bits
    }

    /// The encoding without its sign bit.
    fn magnitude_bits(self) -> (m: u64)
        ensures
            m == self.magnitude(),
            m < SIGN_BIT,
    {
        if self.bits >= SIGN_BIT {
            self.bits - SIGN_BIT
        } else {
            self.bits
        }
    }

    /// The rank as a machine integer.
    fn rank_value(self) -> (r: i64)
        ensures
            r == self.rank(),
    {
        let m: u64 = self.magnitude_bits();
        if self.bits >= SIGN_BIT {
            -(m as i64)
        } else {
            m as i64
        }
    }

    /// Whether the sign bit is set.
    #[verifier::when_used_as_spec(sign)]
    pub fn is_sign_negative(self) -> (b: bool)
        ensures
            b == self.sign(),
    {
        self.bits >= SIGN_BIT
    }

    /// Whether the value is not a number.
    #[verifier::when_used_as_spec(nan)]
    pub fn is_nan(self) -> (b: bool)
        ensures
            b == self.nan(),
    {
        self.magnitude_bits() > INFINITY_BITS
    }

    /// `self < other`.
    #[verifier::when_used_as_spec(spec_lt)]
    pub fn lt(self, other: Self) -> (b: bool)
        ensures
            b == self.spec_lt(other),
    {
        !self.is_nan() && !other.is_nan() && self.rank_value() < other.rank_value()
    }

    /// `self <= other`.
    #[verifier::when_used_as_spec(spec_le)]
    pub fn le(self, other: Self) -> (b: bool)
        ensures
            b == self.spec_le(other),
    {
        !self.is_nan() && !other.is_nan() && self.rank_value() <= other.rank_value()
    }

    /// `self > other`.
    #[verifier::when_used_as_spec(spec_gt)]
    pub fn gt(self, other: Self) -> (b: bool)
        ensures
            b == self.spec_gt(other),
    {
        other.lt(self)
    }

    /// `self >= other`.
    #[verifier::when_used_as_spec(spec_ge)]
    pub fn ge(self, other: Self) -> (b: bool)
        ensures
            b == self.spec_ge(other),
    {
        other.le(self)
    }

    /// The absolute value: the sign bit is cleared, a NaN stays a NaN.
    #[verifier::when_used_as_spec(spec_abs)]
    pub fn abs(self) -> (value: Self)
        ensures
            value == self.spec_abs(),
    {
        Binary64 { bits: self.magnitude_bits() }
    }

    /// The negation: the sign bit is flipped, nothing else changes.
    #[verifier::when_used_as_spec(spec_neg)]
    pub fn neg(self) -> (value: Self)
        ensures
            value == self.spec_neg(),
    {
        if self.bits >= SIGN_BIT {
            Binary64 { bits: self.bits - SIGN_BIT }
        } else {
            Binary64 { bits: self.bits + SIGN_BIT }
        }
    }

    /// The magnitude of `self` with the sign of `sign`.
    #[verifier::when_used_as_spec(spec_copysign)]
    pub fn copysign(self, sign: Self) -> (value: Self)
        ensures
            value == self.spec_copysign(sign),
    {
        let m: u64 = self.magnitude_bits();
        if sign.is_sign_negative() {
            Binary64 { bits: m + SIGN_BIT }
        } else {
            Binary64 { bits: m }
        }
    }

    /// `self` limited to `[low, high]`. A NaN passes through unchanged.
    #[verifier::when_used_as_spec(spec_clamp)]
    pub fn clamp(self, low: Self, high: Self) -> (value: Self)
        requires
            low.spec_le(high),
        ensures
            value == self.spec_clamp(low, high),
    {
        if self.lt(low) {
            low
        } else if self.gt(high) {
            high
        } else {
            self
        }
    }
}

/// Among finite numbers a larger encoding means a larger absolute value.
proof fn lemma_magnitude_increases(a: Binary64, b: Binary64)
    requires
        a.finite(),
        b.finite(),
        a.magnitude() < b.magnitude(),
    ensures
        a.scaled_magnitude() < b.scaled_magnitude(),
{
    let ea = a.exponent_field();
    let eb = b.exponent_field();
    let fa = a.fraction_field();
    let fb = b.fraction_field();
    if ea == eb {
        if ea > 0 {
            let p = pow2((ea - 1) as nat);
            lemma_pow2_pos((ea - 1) as nat);
            lemma_mul_strict_inequality(HIDDEN_BIT + fa, HIDDEN_BIT + fb, p as int);
        }
    } else {
        let low = pow2((eb - 1) as nat);
        lemma_pow2_pos((eb - 1) as nat);
        lemma_mul_inequality(HIDDEN_BIT as int, HIDDEN_BIT + fb, low as int);
        if ea == 0 {
            lemma_mul_inequality(1, low as int, HIDDEN_BIT as int);
        } else {
            let p = pow2((ea - 1) as nat);
            lemma_pow2_pos((ea - 1) as nat);
            lemma_pow2_unfold(ea);
            lemma_mul_strict_inequality(HIDDEN_BIT + fa, 2 * HIDDEN_BIT, p as int);
            assert((2 * HIDDEN_BIT) * p == HIDDEN_BIT * (2 * p)) by (nonlinear_arith);
            if ea < eb - 1 {
                lemma_pow2_strictly_increases(ea, (eb - 1) as nat);
            }
            lemma_mul_inequality(pow2(ea) as int, low as int, HIDDEN_BIT as int);
        }
    }
}

/// The order of finite numbers is the order of their values: `a < b`
/// exactly when the value of `a` is below the value of `b`, and likewise
/// for `<=`. The two zeros have the same value.
pub proof fn lemma_order_is_by_value(a: Binary64, b: Binary64)
    requires
        a.finite(),
        b.finite(),
    ensures
        a.spec_lt(b) <==> a.scaled_value() < b.scaled_value(),
        a.spec_le(b) <==> a.scaled_value() <= b.scaled_value(),
        a.rank() == b.rank() <==> a.scaled_value() == b.scaled_value(),
{
    if a.magnitude() < b.magnitude() {
        lemma_magnitude_increases(a, b);
    } else if b.magnitude() < a.magnitude() {
        lemma_magnitude_increases(b, a);
    }
    let zero = Binary64 { bits: 0 };
    if a.magnitude() > 0 {
        lemma_magnitude_increases(zero, Binary64 { bits: a.magnitude() });
    }
    if b.magnitude() > 0 {
        lemma_magnitude_increases(zero, Binary64 { bits: b.magnitude() });
    }
}

/// An infinity lies beyond every finite number, on the side of its sign.
pub proof fn lemma_infinity_bounds(a: Binary64)
    requires
        a.finite(),
    ensures
        a.spec_lt(Binary64 { bits: INFINITY_BITS }),
        (Binary64 { bits: (INFINITY_BITS + SIGN_BIT) as u64 }).spec_lt(a),
{
}

/// `<` is a strict order and `<=` its reflexive closure on the numbers
/// other than NaN, of which any two are comparable. A NaN compares with
/// nothing, itself included.
pub proof fn lemma_order(a: Binary64, b: Binary64, c: Binary64)
    ensures
        !a.spec_lt(a),
        a.spec_lt(b) ==> !b.spec_lt(a),
        a.spec_lt(b) && b.spec_lt(c) ==> a.spec_lt(c),
        a.spec_le(b) && b.spec_le(c) ==> a.spec_le(c),
        a.spec_le(b) <==> a.spec_lt(b) || (!a.nan() && !b.nan() && a.rank() == b.rank()),
        !a.nan() && !b.nan() ==> a.spec_lt(b) || b.spec_le(a),
        a.nan() || b.nan() ==> !a.spec_lt(b) && !a.spec_le(b),
{
}

/// Negation mirrors the order and undoes itself; the absolute value is
/// never negative, and is the number itself or its negation.
pub proof fn lemma_sign(a: Binary64, b: Binary64)
    ensures
        a.spec_neg().spec_neg() == a,
        a.spec_neg().nan() == a.nan(),
        a.spec_abs().nan() == a.nan(),
        a.spec_lt(b) <==> b.spec_neg().spec_lt(a.spec_neg()),
        !a.nan() ==> a.spec_abs().spec_ge(Binary64 { bits: ZERO_BITS }),
        a.spec_abs() == (if a.sign() { a.spec_neg() } else { a }),
        a.spec_neg().scaled_value() == -a.scaled_value(),
{
}

/// A number other than NaN, once clamped, lies within the limits, and a
/// number within the limits is left as it is.
pub proof fn lemma_clamp(a: Binary64, low: Binary64, high: Binary64)
    requires
        low.spec_le(high),
    ensures
        !a.nan() ==> low.spec_le(a.spec_clamp(low, high)) && a.spec_clamp(low, high).spec_le(high),
        low.spec_le(a) && a.spec_le(high) ==> a.spec_clamp(low, high) == a,
        a.nan() ==> a.spec_clamp(low, high) == a,
        a.spec_clamp(low, high).spec_clamp(low, high) == a.spec_clamp(low, high),
{
}

} // verus!
