//! Real-valued quantities carried as IEEE 754 binary64 bit patterns.
//!
//! A `Scalar` is the 64-bit encoding of a coordinate, a length or an angle.
//! The library never computes with these values; it classifies and compares
//! them, and both are decided on the encoding alone. The meaning of an
//! encoding is given by `Scalar::scaled`, an integer that orders the encodings
//! exactly as the values they encode are ordered.

use vstd::arithmetic::power2::{lemma_pow2_pos, lemma_pow2_strictly_increases, lemma_pow2_unfold, pow2};
use vstd::prelude::*;

verus! {

/// The lowest encoding with the sign bit set.
pub const SIGN_BIT: u64 = 0x8000_0000_0000_0000;

/// The encoding of positive infinity: every exponent bit set, no fraction bit.
pub const INFINITY_BITS: u64 = 0x7FF0_0000_0000_0000;

/// Two to the power 52: the weight of the lowest exponent bit, and the
/// implicit leading bit of a normal significand.
pub const HIDDEN_BIT: u64 = 0x0010_0000_0000_0000;

/// The encoding of the binary64 value nearest to one quarter turn (pi / 2).
pub const QUARTER_TURN_BITS: u64 = 0x3FF9_21FB_5444_2D18;

/// One binary64 value, held as its encoding.
///
/// `==` on scalars compares encodings, not values: the two zeros differ, and
/// a NaN equals itself. Use `lt` to compare values.
#[derive(Clone, Copy, Debug, PartialEq, Eq, Structural)]
pub struct Scalar {
    pub bits: u64,
}

impl Scalar {
    /// The sign bit is set.
    pub open spec fn negative(self) -> bool {
        self.bits >= SIGN_BIT
    }

    /// The encoding without its sign bit.
    pub open spec fn abs_bits(self) -> nat {
        if self.negative() {
            (self.bits - SIGN_BIT) as nat
        } else {
            self.bits as nat
        }
    }

    /// The biased exponent field, between 0 and 2047.
    pub open spec fn exponent(self) -> nat {
        self.abs_bits() / (HIDDEN_BIT as nat)
    }

    /// The fraction field, below two to the power 52.
    pub open spec fn fraction(self) -> nat {
        self.abs_bits() % (HIDDEN_BIT as nat)
    }

    /// Not a number: the exponent field is all ones and the fraction is not zero.
    pub open spec fn nan(self) -> bool {
        self.exponent() == 2047 && self.fraction() != 0
    }

    /// Neither an infinity nor a NaN.
    pub open spec fn finite(self) -> bool {
        self.exponent() < 2047
    }

    /// The absolute value in units of two to the power -1074, the spacing of
    /// the subnormal numbers, so that every finite value is a whole number of
    /// units. An infinity gets two to the power 2098, which lies above every
    /// finite magnitude.
    pub open spec fn magnitude(self) -> nat {
        if self.exponent() == 0 {
            self.fraction()
        } else {
            (HIDDEN_BIT as nat + self.fraction()) * pow2((self.exponent() - 1) as nat)
        }
    }

    /// The signed value in units of two to the power -1074. Both zeros give 0.
    /// Meaningless for a NaN.
    pub open spec fn scaled(self) -> int {
        if self.negative() {
            -(self.magnitude() as int)
        } else {
            self.magnitude() as int
        }
    }

    /// A finite value above zero: an encoding above that of zero and below
    /// that of positive infinity. `lemma_positive_is_above_zero` ties this to
    /// the value.
    pub open spec fn positive(self) -> bool {
        0 < self.bits < INFINITY_BITS
    }

    /// The order of the values: false when either side is a NaN, otherwise
    /// the order of the scaled integers, with the infinities at both ends.
    pub open spec fn lt_spec(self, other: Scalar) -> bool {
        !self.nan() && !other.nan() && self.scaled() < other.scaled()
    }

    /// The two scalars stand for one value: neither is a NaN, and either the
    /// encodings agree or both encode zero, with whichever sign.
    /// `lemma_same_value_is_equal_value` ties this to the values.
    pub open spec fn same_value(self, other: Scalar) -> bool {
        !self.nan() && !other.nan() && (self.bits == other.bits || (self.abs_bits() == 0
            && other.abs_bits() == 0))
    }

    /// The scalar with the given encoding.
    pub fn from_bits(bits: u64) -> (s: Scalar)
        ensures
            s.bits == bits,
    {
        Scalar { bits }
    }

    /// The encoding.
    pub fn to_bits(&self) -> (bits: u64)
        ensures
            bits == self.bits,
    {
        self.bits
    }

    /// One quarter turn, the upper limit of a steering angle.
    pub fn quarter_turn() -> (s: Scalar)
        ensures
            s.bits == QUARTER_TURN_BITS,
            s.positive(),
    {
        Scalar { bits: QUARTER_TURN_BITS }
    }

    fn magnitude_bits(&self) -> (m: u64)
        ensures
            m == self.abs_bits(),
            m < SIGN_BIT,
    {
        if self.bits >= SIGN_BIT {
            self.bits - SIGN_BIT
        } else {
            self.bits
        }
    }

    pub fn is_nan(&self) -> (r: bool)
        ensures
            r == self.nan(),
    {
        self.magnitude_bits() > INFINITY_BITS
    }

    pub fn is_finite(&self) -> (r: bool)
        ensures
            r == self.finite(),
    {
        self.magnitude_bits() < INFINITY_BITS
    }

    /// Whether the value is finite and above zero.
    pub fn is_positive(&self) -> (r: bool)
        ensures
            r == self.positive(),
    {
        self.bits > 0 && self.bits < INFINITY_BITS
    }

    /// Whether the two scalars stand for one value, as IEEE 754 compares
    /// them: the two zeros are equal, and a NaN equals nothing.
    pub fn eq_value(&self, other: &Scalar) -> (r: bool)
        ensures
            r == self.same_value(*other),
    {
        if self.is_nan() || other.is_nan() {
            return false;
        }
        self.bits == other.bits || (self.magnitude_bits() == 0 && other.magnitude_bits() == 0)
    }

    /// Whether this value is below `other`, as IEEE 754 orders them.
    pub fn lt(&self, other: &Scalar) -> (r: bool)
        ensures
            r == self.lt_spec(*other),
    {
        if self.is_nan() || other.is_nan() {
            return false;
        }
        let a: u64 = self.magnitude_bits();
        let b: u64 = other.magnitude_bits();
        proof {
            lemma_magnitude_order(*self, *other);
            lemma_magnitude_zero(*self);
            lemma_magnitude_zero(*other);
        }
        if self.bits >= SIGN_BIT {
            if other.bits >= SIGN_BIT {
                b < a
            } else {
                a != 0 || b != 0
            }
        } else {
            if other.bits >= SIGN_BIT {
                false
            } else {
                a < b
            }
        }
    }
}

/// A magnitude is zero exactly for the two encodings of zero.
pub proof fn lemma_magnitude_zero(s: Scalar)
    ensures
        s.magnitude() == 0 <==> s.abs_bits() == 0,
{
    if s.exponent() != 0 {
        let e = (s.exponent() - 1) as nat;
        lemma_pow2_pos(e);
        assert((HIDDEN_BIT as nat + s.fraction()) * pow2(e) > 0) by (nonlinear_arith)
            requires
                pow2(e) > 0,
        ;
    }
}

/// A scalar is positive exactly when it is finite and its value is above zero.
pub proof fn lemma_positive_is_above_zero(s: Scalar)
    ensures
        s.positive() <==> s.finite() && s.scaled() > 0,
{
    lemma_magnitude_zero(s);
}

/// Two scalars stand for one value exactly when neither is a NaN and their
/// scaled values are equal.
pub proof fn lemma_same_value_is_equal_value(a: Scalar, b: Scalar)
    ensures
        a.same_value(b) <==> !a.nan() && !b.nan() && a.scaled() == b.scaled(),
{
    lemma_magnitude_order(a, b);
    lemma_magnitude_zero(a);
    lemma_magnitude_zero(b);
}

/// Among positive scalars, and more generally among encodings without the
/// sign bit that are not NaN, the values are ordered as the encodings are.
pub proof fn lemma_order_of_encodings(a: Scalar, b: Scalar)
    requires
        !a.negative() && !a.nan(),
        !b.negative() && !b.nan(),
    ensures
        a.lt_spec(b) <==> a.bits < b.bits,
{
    lemma_magnitude_order(a, b);
}

/// A larger encoding, sign aside, has a larger magnitude.
proof fn lemma_magnitude_increases(a: Scalar, b: Scalar)
    requires
        a.abs_bits() < b.abs_bits(),
    ensures
        a.magnitude() < b.magnitude(),
{
    let h = HIDDEN_BIT as nat;
    let (ea, fa) = (a.exponent(), a.fraction());
    let (eb, fb) = (b.exponent(), b.fraction());
    assert(a.abs_bits() == ea * h + fa && b.abs_bits() == eb * h + fb);
    assert(ea <= eb);
    if ea == eb {
        if ea != 0 {
            let p = pow2((ea - 1) as nat);
            lemma_pow2_pos((ea - 1) as nat);
            assert((h + fa) * p < (h + fb) * p) by (nonlinear_arith)
                requires
                    fa < fb,
                    p > 0,
            ;
        }
    } else {
        let pb = pow2((eb - 1) as nat);
        lemma_pow2_pos((eb - 1) as nat);
        if ea == 0 {
            assert((h + fb) * pb >= h) by (nonlinear_arith)
                requires
                    pb >= 1,
            ;
        } else {
            let pa = pow2((ea - 1) as nat);
            lemma_pow2_pos((ea - 1) as nat);
            lemma_pow2_unfold(ea);
            assert(pow2(ea) <= pb) by {
                if ea < eb - 1 {
                    lemma_pow2_strictly_increases(ea, (eb - 1) as nat);
                }
            }
            assert((h + fa) * pa < h * pb) by (nonlinear_arith)
                requires
                    fa < h,
                    2 * pa <= pb,
                    pa > 0,
            ;
            assert(h * pb <= (h + fb) * pb) by (nonlinear_arith);
        }
    }
}

/// Magnitudes are ordered as the encodings without their sign bits are.
pub proof fn lemma_magnitude_order(a: Scalar, b: Scalar)
    ensures
        a.abs_bits() < b.abs_bits() <==> a.magnitude() < b.magnitude(),
        a.abs_bits() == b.abs_bits() <==> a.magnitude() == b.magnitude(),
{
    if a.abs_bits() < b.abs_bits() {
        lemma_magnitude_increases(a, b);
    } else if b.abs_bits() < a.abs_bits() {
        lemma_magnitude_increases(b, a);
    }
}

} // verus!
