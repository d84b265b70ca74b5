//! Real numbers in IEEE-754 binary32 form, held as their bit patterns.
//!
//! The library never does arithmetic on a scalar. It classifies scalars and
//! puts them in order, exactly, and leaves sums and products to its caller.

use vstd::arithmetic::power2::{
    lemma2_to64, lemma_pow2_adds, lemma_pow2_pos, lemma_pow2_strictly_increases, lemma_pow2_unfold,
    pow2,
};
use vstd::prelude::*;

verus! {

/// The bit that holds the sign.
pub const SIGN_BIT: u32 = 0x8000_0000;

/// Two to the power 23: the weight of the leading digit that normal numbers leave out.
pub const HIDDEN_BIT: u32 = 0x0080_0000;

/// The pattern of positive infinity. Larger magnitudes are NaN.
pub const INFINITY_BITS: u32 = 0x7f80_0000;

/// The pattern of the number one.
pub const ONE_BITS: u32 = 0x3f80_0000;

/// A binary32 number as its bit pattern: one sign bit, eight bits of exponent
/// and twenty-three bits of fraction.
///
/// `==` compares patterns. Use [`Scalar::same_number`] to compare as numbers.
#[derive(Clone, Copy, Debug, PartialEq, Eq, Structural)]
pub struct Scalar {
    pub bits: u32,
}

impl Scalar {
    /// The sign bit is set. This holds of negative zero too.
    pub open spec fn negative(self) -> bool {
        self.bits >= SIGN_BIT
    }

    /// The pattern without its sign bit.
    pub open spec fn magnitude_bits(self) -> nat {
        (self.bits % SIGN_BIT) as nat
    }

    /// The biased exponent, from 0 to 255.
    pub open spec fn exponent(self) -> nat {
        self.magnitude_bits() / (HIDDEN_BIT as nat)
    }

    /// The fraction field, below two to the power 23.
    pub open spec fn fraction(self) -> nat {
        self.magnitude_bits() % (HIDDEN_BIT as nat)
    }

    /// Not a number: the exponent is all ones and the fraction is not zero.
    pub open spec fn spec_is_nan(self) -> bool {
        self.exponent() == 255 && self.fraction() != 0
    }

    /// Neither NaN nor an infinity.
    pub open spec fn spec_is_finite(self) -> bool {
        self.exponent() < 255
    }

    /// The absolute value in units of two to the power -149, the smallest
    /// positive binary32 number. Every finite binary32 number is a whole
    /// multiple of that unit. An infinity comes out as two to the power 277,
    /// above every finite magnitude. Of a NaN this says nothing useful.
    pub open spec fn magnitude(self) -> nat {
        if self.exponent() == 0 {
            self.fraction()
        } else {
            (HIDDEN_BIT as nat + self.fraction()) * pow2((self.exponent() - 1) as nat)
        }
    }

    /// The number in units of two to the power -149. Both zeros are 0.
    pub open spec fn value(self) -> int {
        if self.negative() {
            -(self.magnitude() as int)
        } else {
            self.magnitude() as int
        }
    }

    /// `self < other` as numbers. False as soon as one side is NaN.
    pub open spec fn spec_lt(self, other: Scalar) -> bool {
        !self.spec_is_nan() && !other.spec_is_nan() && self.value() < other.value()
    }

    /// `self > other` as numbers. False as soon as one side is NaN.
    pub open spec fn spec_gt(self, other: Scalar) -> bool {
        other.spec_lt(self)
    }

    /// Positive or negative zero: the number 0.
    pub open spec fn spec_is_zero(self) -> bool {
        !self.spec_is_nan() && self.value() == 0
    }

    /// `low < self < high` as numbers: strictly inside the open interval.
    pub open spec fn spec_is_between(self, low: Scalar, high: Scalar) -> bool {
        low.spec_lt(self) && self.spec_lt(high)
    }

    /// Both are numbers, and the same one. The two zeros are the same number.
    pub open spec fn same_number(self, other: Scalar) -> bool {
        !self.spec_is_nan() && !other.spec_is_nan() && self.value() == other.value()
    }

    /// The larger of two numbers. A NaN gives way to the other side; of two
    /// zeros, or two NaNs, `self` wins over `other` only if it is not NaN.
    pub open spec fn spec_max(self, other: Scalar) -> Scalar {
        if self.spec_is_nan() || self.spec_lt(other) {
            other
        } else {
            self
        }
    }

    /// The pattern with the sign bit cleared.
    pub open spec fn spec_abs(self) -> Scalar {
        Scalar { bits: (self.bits % SIGN_BIT) as u32 }
    }

    /// The pattern with the sign bit turned over: the number of opposite sign.
    pub open spec fn spec_neg(self) -> Scalar {
        if self.negative() {
            Scalar { bits: (self.bits - SIGN_BIT) as u32 }
        } else {
            Scalar { bits: (self.bits + SIGN_BIT) as u32 }
        }
    }

    /// The number held to the range from zero to one: one for what is greater
    /// than one, positive zero for what is not greater than zero, a NaN
    /// among it, and else the number itself.
    pub open spec fn spec_clamp_unit(self) -> Scalar {
        if self.spec_gt(Scalar { bits: ONE_BITS }) {
            Scalar { bits: ONE_BITS }
        } else if self.spec_gt(Scalar { bits: 0 }) {
            self
        } else {
            Scalar { bits: 0 }
        }
    }

    /// The number itself if it is finite, else positive zero.
    pub open spec fn spec_nan_safe(self) -> Scalar {
        if self.spec_is_finite() {
            self
        } else {
            Scalar { bits: 0 }
        }
    }

    /// A larger pattern, sign bit aside, is a larger magnitude.
    pub proof fn lemma_magnitude_increases(self, other: Scalar)
        requires
            self.magnitude_bits() < other.magnitude_bits(),
        ensures
            self.magnitude() < other.magnitude(),
    {
        let h = HIDDEN_BIT as nat;
        let (e1, f1) = (self.exponent(), self.fraction());
        let (e2, f2) = (other.exponent(), other.fraction());
        if e2 != 0 {
            let upper = pow2((e2 - 1) as nat);
            lemma_pow2_pos((e2 - 1) as nat);
            if e1 == e2 {
                assert((h + f1) * upper < (h + f2) * upper) by (nonlinear_arith)
                    requires
                        f1 < f2,
                        upper > 0,
                ;
            } else {
                assert(h * upper <= (h + f2) * upper) by (nonlinear_arith)
                    requires
                        upper > 0,
                ;
                if e1 == 0 {
                    assert(h * 1 <= h * upper) by (nonlinear_arith)
                        requires
                            upper >= 1,
                    ;
                } else {
                    let lower = pow2((e1 - 1) as nat);
                    lemma_pow2_pos((e1 - 1) as nat);
                    lemma_pow2_unfold(e1);
                    assert(pow2(e1) <= upper) by {
                        if e1 < e2 - 1 {
                            lemma_pow2_strictly_increases(e1, (e2 - 1) as nat);
                        }
                    }
                    assert((h + f1) * lower < h * (2 * lower)) by (nonlinear_arith)
                        requires
                            f1 < h,
                            lower > 0,
                    ;
                    assert(h * pow2(e1) <= h * upper) by (nonlinear_arith)
                        requires
                            pow2(e1) <= upper,
                    ;
                }
            }
        }
    }

    /// Magnitudes stand in the order of their patterns, and only the pattern
    /// zero has magnitude zero.
    pub proof fn lemma_magnitude_order(self, other: Scalar)
        ensures
            self.magnitude_bits() < other.magnitude_bits() <==> self.magnitude()
                < other.magnitude(),
            self.magnitude_bits() == other.magnitude_bits() <==> self.magnitude()
                == other.magnitude(),
            self.magnitude_bits() == 0 <==> self.magnitude() == 0,
    {
        if self.magnitude_bits() < other.magnitude_bits() {
            self.lemma_magnitude_increases(other);
        }
        if other.magnitude_bits() < self.magnitude_bits() {
            other.lemma_magnitude_increases(self);
        }
        let zero = Scalar { bits: 0 };
        if 0 < self.magnitude_bits() {
            zero.lemma_magnitude_increases(self);
        }
    }

    /// The number one is two to the power 149 units, and the smallest
    /// positive number is one unit.
    pub proof fn lemma_unit()
        ensures
            (Scalar { bits: ONE_BITS }).value() == pow2(149),
            (Scalar { bits: 1 }).value() == 1,
            (Scalar { bits: 0 }).value() == 0,
            (Scalar { bits: SIGN_BIT }).value() == 0,
    {
        lemma2_to64();
        lemma_pow2_adds(23, 126);
    }

    /// Among numbers `spec_lt` is a strict order, and a total one: of two
    /// numbers one is the smaller unless they are the same number. Two
    /// patterns are the same number only where they are one pattern, or
    /// the two zeros.
    pub proof fn lemma_order(a: Scalar, b: Scalar, c: Scalar)
        ensures
            !a.spec_lt(a),
            a.spec_lt(b) ==> !b.spec_lt(a),
            a.spec_lt(b) && b.spec_lt(c) ==> a.spec_lt(c),
            !a.spec_is_nan() && !b.spec_is_nan() ==> a.spec_lt(b) || b.spec_lt(a) || a.same_number(b),
            a.same_number(b) <==> !a.spec_is_nan() && !b.spec_is_nan() && (a.bits == b.bits
                || (a.magnitude_bits() == 0 && b.magnitude_bits() == 0)),
    {
        a.lemma_magnitude_order(b);
        b.lemma_magnitude_order(a);
    }

    /// The scalar with the given bit pattern.
    pub fn from_bits(bits: u32) -> (r: Scalar)
        ensures
            r.bits == bits,
    {
        Scalar { bits }
    }

    /// The bit pattern.
    pub fn to_bits(self) -> (r: u32)
        ensures
            r == self.bits,
    {
        self.bits
    }

    /// Positive zero.
    pub fn zero() -> (r: Scalar)
        ensures
            r.bits == 0,
            r.value() == 0,
            r.spec_is_finite(),
    {
        Scalar { bits: 0 }
    }

    /// Whether this is a NaN.
    #[verifier::when_used_as_spec(spec_is_nan)]
    pub fn is_nan(self) -> (r: bool)
        ensures
            r == self.spec_is_nan(),
    {
        self.bits % SIGN_BIT > INFINITY_BITS
    }

    /// Whether this is a number other than an infinity.
    #[verifier::when_used_as_spec(spec_is_finite)]
    pub fn is_finite(self) -> (r: bool)
        ensures
            r == self.spec_is_finite(),
    {
        self.bits % SIGN_BIT < INFINITY_BITS
    }

    /// Whether this is the number 0, be it positive or negative zero.
    #[verifier::when_used_as_spec(spec_is_zero)]
    pub fn is_zero(self) -> (r: bool)
        ensures
            r == self.spec_is_zero(),
            r == self.same_number(Scalar { bits: 0 }),
    {
        proof {
            self.lemma_magnitude_order(self);
        }
        self.bits % SIGN_BIT == 0
    }

    /// Whether `self` is the smaller number.
    #[verifier::when_used_as_spec(spec_lt)]
    pub fn lt(self, other: Scalar) -> (r: bool)
        ensures
            r == self.spec_lt(other),
    {
        if self.is_nan() || other.is_nan() {
            return false;
        }
        let a: u32 = self.bits % SIGN_BIT;
        let b: u32 = other.bits % SIGN_BIT;
        proof {
            self.lemma_magnitude_order(other);
            other.lemma_magnitude_order(self);
        }
        if self.bits >= SIGN_BIT {
            if other.bits >= SIGN_BIT {
                b < a
            } else {
                a != 0 || b != 0
            }
        } else {
            other.bits < SIGN_BIT && a < b
        }
    }

    /// Whether `self` is the larger number.
    #[verifier::when_used_as_spec(spec_gt)]
    pub fn gt(self, other: Scalar) -> (r: bool)
        ensures
            r == self.spec_gt(other),
    {
        other.lt(self)
    }

    /// Whether `self` lies strictly between `low` and `high`.
    #[verifier::when_used_as_spec(spec_is_between)]
    pub fn is_between(self, low: Scalar, high: Scalar) -> (r: bool)
        ensures
            r == self.spec_is_between(low, high),
    {
        low.lt(self) && self.lt(high)
    }

    /// The larger of two numbers, see [`Scalar::spec_max`].
    #[verifier::when_used_as_spec(spec_max)]
    pub fn max(self, other: Scalar) -> (r: Scalar)
        ensures
            r == self.spec_max(other),
    {
        if self.is_nan() || self.lt(other) {
            other
        } else {
            self
        }
    }

    /// The absolute value: the same magnitude, with the sign bit cleared.
    #[verifier::when_used_as_spec(spec_abs)]
    pub fn abs(self) -> (r: Scalar)
        ensures
            r == self.spec_abs(),
            !r.negative(),
            r.magnitude() == self.magnitude(),
            r.spec_is_nan() == self.spec_is_nan(),
    {
        Scalar { bits: self.bits % SIGN_BIT }
    }

    /// The number of opposite sign and the same magnitude. A NaN stays a NaN.
    #[verifier::when_used_as_spec(spec_neg)]
    pub fn neg(self) -> (r: Scalar)
        ensures
            r == self.spec_neg(),
            r.magnitude() == self.magnitude(),
            r.negative() != self.negative(),
            r.value() == -self.value(),
            r.spec_is_nan() == self.spec_is_nan(),
    {
        if self.bits >= SIGN_BIT {
            Scalar { bits: self.bits - SIGN_BIT }
        } else {
            Scalar { bits: self.bits + SIGN_BIT }
        }
    }

    /// Holds the number to the range from zero to one, see
    /// [`Scalar::spec_clamp_unit`].
    #[verifier::when_used_as_spec(spec_clamp_unit)]
    pub fn clamp_unit(self) -> (r: Scalar)
        ensures
            r == self.spec_clamp_unit(),
            !r.spec_is_nan(),
            0 <= r.value() <= (Scalar { bits: ONE_BITS }).value(),
    {
        if self.gt(Scalar { bits: ONE_BITS }) {
            Scalar { bits: ONE_BITS }
        } else if self.gt(Scalar::zero()) {
            self
        } else {
            Scalar::zero()
        }
    }

    /// Replaces what is not a finite number by zero.
    #[verifier::when_used_as_spec(spec_nan_safe)]
    pub fn nan_safe(self) -> (r: Scalar)
        ensures
            r == self.spec_nan_safe(),
            r.spec_is_finite(),
    {
        if self.is_finite() {
            self
        } else {
            Scalar { bits: 0 }
        }
    }
}

} // verus!
