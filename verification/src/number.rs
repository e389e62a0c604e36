//! Binary floating-point numbers held as integers.
//!
//! The generation parameters are IEEE 754 double-precision numbers. The
//! library never computes with them: it carries them from a source to the
//! resolved record and compares them with the bounds of their ranges. Both
//! can be done on the bit pattern, which is what this module holds. What a
//! pattern means as a number is stated here too, and the comparisons are
//! proved against that meaning.

use vstd::prelude::*;
use vstd::arithmetic::power2::{
    lemma2_to64_rest, lemma_pow2_adds, lemma_pow2_pos, lemma_pow2_strictly_increases,
    lemma_pow2_unfold, pow2,
};

verus! {

/// The bit of a pattern that holds the sign.
pub const SIGN_BIT: u64 = 0x8000_0000_0000_0000;

/// The magnitude bits of positive infinity; every larger magnitude is a NaN.
pub const INFINITY_BITS: u64 = 0x7ff0_0000_0000_0000;

/// Two to the power of 52: the number of fractions that one exponent has.
pub const FRACTION_RANGE: u64 = 0x10_0000_0000_0000;

/// A double-precision number, held by its IEEE 754 bit pattern.
///
/// Two values are equal when their bit patterns are: `0.0` and `-0.0` are
/// different values of this type, although neither is less than the other.
#[derive(Clone, Copy, Debug, PartialEq, Eq, Structural)]
pub struct F64Bits {
    pub bits: u64,
}

/// An integer in the unit in which `scaled` counts: `n` times 2^1074.
pub open spec fn scale(n: int) -> int {
    n * pow2(1074)
}

impl F64Bits {
    /// The pattern with its sign bit cleared.
    pub open spec fn magnitude(self) -> u64 {
        if self.bits >= SIGN_BIT {
            (self.bits - SIGN_BIT) as u64
        } else {
            self.bits
        }
    }

    /// Whether the sign bit is set.
    pub open spec fn is_negative(self) -> bool {
        self.bits >= SIGN_BIT
    }

    /// Whether the pattern is one of the NaNs.
    pub open spec fn is_nan_spec(self) -> bool {
        self.magnitude() > INFINITY_BITS
    }

    /// Whether the pattern is a number other than an infinity or a NaN.
    pub open spec fn is_finite(self) -> bool {
        self.magnitude() < INFINITY_BITS
    }

    /// The exponent field: the eleven bits below the sign.
    pub open spec fn exponent(self) -> nat {
        (self.magnitude() / FRACTION_RANGE) as nat
    }

    /// The fraction field: the low 52 bits.
    pub open spec fn fraction(self) -> nat {
        (self.magnitude() % FRACTION_RANGE) as nat
    }

    /// The absolute value of the number in units of 2^-1074, the smallest
    /// step between two doubles. With exponent field `e` and fraction `f` a
    /// double is `f * 2^-1074` where `e` is 0 and `(2^52 + f) * 2^(e - 1075)`
    /// elsewhere, so this is an integer. For an infinity it is what the same
    /// formula gives, which is more than for any finite number.
    pub open spec fn scaled_magnitude(self) -> int {
        if self.exponent() == 0 {
            self.fraction() as int
        } else {
            (FRACTION_RANGE + self.fraction()) * pow2((self.exponent() - 1) as nat)
        }
    }

    /// The number in units of 2^-1074, with its sign. Both zeros give 0.
    pub open spec fn scaled(self) -> int {
        if self.is_negative() {
            -self.scaled_magnitude()
        } else {
            self.scaled_magnitude()
        }
    }

    /// `self <= other` as numbers: false when either is a NaN.
    pub open spec fn le_spec(self, other: F64Bits) -> bool {
        !self.is_nan_spec() && !other.is_nan_spec() && self.scaled() <= other.scaled()
    }

    /// `self < other` as numbers: false when either is a NaN.
    pub open spec fn lt_spec(self, other: F64Bits) -> bool {
        !self.is_nan_spec() && !other.is_nan_spec() && self.scaled() < other.scaled()
    }

    /// `low <= self <= high` as numbers.
    pub open spec fn within_spec(self, low: F64Bits, high: F64Bits) -> bool {
        low.le_spec(self) && self.le_spec(high)
    }

    /// Whether the number is the integer `n`.
    pub open spec fn is_integer(self, n: int) -> bool {
        self.is_finite() && self.scaled() == scale(n)
    }

    /// `n <= self` for an integer `n`: true of positive infinity, false of
    /// negative infinity and of a NaN.
    pub open spec fn at_least(self, n: int) -> bool {
        if self.is_finite() {
            scale(n) <= self.scaled()
        } else {
            !self.is_nan_spec() && !self.is_negative()
        }
    }

    /// `self <= n` for an integer `n`: true of negative infinity, false of
    /// positive infinity and of a NaN.
    pub open spec fn at_most(self, n: int) -> bool {
        if self.is_finite() {
            self.scaled() <= scale(n)
        } else {
            !self.is_nan_spec() && self.is_negative()
        }
    }

    /// `n < self` for an integer `n`: true of positive infinity, false of
    /// negative infinity and of a NaN.
    pub open spec fn greater_than(self, n: int) -> bool {
        if self.is_finite() {
            scale(n) < self.scaled()
        } else {
            !self.is_nan_spec() && !self.is_negative()
        }
    }

    /// The number with the given bit pattern.
    pub open spec fn spec_from_bits(bits: u64) -> F64Bits {
        F64Bits { bits }
    }

    /// The number with the given bit pattern.
    #[verifier::when_used_as_spec(spec_from_bits)]
    pub fn from_bits(bits: u64) -> (r: F64Bits)
        ensures
            r == Self::spec_from_bits(bits),
    {
        F64Bits { bits }
    }

    /// The bit pattern of the number.
    pub fn to_bits(self) -> (bits: u64)
        ensures
            bits == self.bits,
    {
        self.bits
    }

    fn magnitude_bits(self) -> (m: u64)
        ensures
            m == self.magnitude(),
    {
        if self.bits >= SIGN_BIT {
            self.bits - SIGN_BIT
        } else {
            self.bits
        }
    }

    #[verifier::when_used_as_spec(is_nan_spec)]
    pub fn is_nan(self) -> (r: bool)
        ensures
            r == self.is_nan_spec(),
    {
        self.magnitude_bits() > INFINITY_BITS
    }

    /// Compares by the bit patterns: among numbers of one sign the
    /// magnitudes order as the numbers do.
    #[verifier::when_used_as_spec(le_spec)]
    pub fn le(self, other: F64Bits) -> (r: bool)
        ensures
            r == self.le_spec(other),
    {
        if self.is_nan() || other.is_nan() {
            return false;
        }
        proof {
            lemma_magnitudes_order(self, other);
            lemma_magnitudes_order(other, self);
        }
        let a: u64 = self.magnitude_bits();
        let b: u64 = other.magnitude_bits();
        if self.bits >= SIGN_BIT {
            if other.bits >= SIGN_BIT {
                b <= a
            } else {
                true
            }
        } else {
            if other.bits >= SIGN_BIT {
                a == 0 && b == 0
            } else {
                a <= b
            }
        }
    }

    /// Compares by the bit patterns, as `le` does.
    #[verifier::when_used_as_spec(lt_spec)]
    pub fn lt(self, other: F64Bits) -> (r: bool)
        ensures
            r == self.lt_spec(other),
    {
        if self.is_nan() || other.is_nan() {
            return false;
        }
        proof {
            lemma_magnitudes_order(self, other);
            lemma_magnitudes_order(other, self);
        }
        let a: u64 = self.magnitude_bits();
        let b: u64 = other.magnitude_bits();
        if self.bits >= SIGN_BIT {
            if other.bits >= SIGN_BIT {
                b < a
            } else {
                a != 0 || b != 0
            }
        } else {
            if other.bits >= SIGN_BIT {
                false
            } else {
                a < b
            }
        }
    }

    #[verifier::when_used_as_spec(within_spec)]
    pub fn within(self, low: F64Bits, high: F64Bits) -> (r: bool)
        ensures
            r == self.within_spec(low, high),
    {
        low.le(self) && self.le(high)
    }
}

/// Of two patterns that are no NaNs, the one with the smaller magnitude
/// bits is the number with the smaller absolute value, and only the zeros
/// have the absolute value 0.
pub proof fn lemma_magnitudes_order(a: F64Bits, b: F64Bits)
    requires
        !a.is_nan_spec(),
        !b.is_nan_spec(),
    ensures
        a.magnitude() < b.magnitude() ==> a.scaled_magnitude() < b.scaled_magnitude(),
        a.magnitude() == b.magnitude() ==> a.scaled_magnitude() == b.scaled_magnitude(),
        a.magnitude() == 0 <==> a.scaled_magnitude() == 0,
{
    let p = FRACTION_RANGE as int;
    let ea = a.exponent();
    let eb = b.exponent();
    let fa = a.fraction() as int;
    let fb = b.fraction() as int;
    if ea > 0 {
        let w = pow2((ea - 1) as nat) as int;
        lemma_pow2_pos((ea - 1) as nat);
        assert((p + fa) * w > 0) by (nonlinear_arith)
            requires
                p + fa > 0,
                w > 0,
        ;
    }
    if a.magnitude() < b.magnitude() {
        if ea == eb {
            if ea > 0 {
                let w = pow2((ea - 1) as nat) as int;
                lemma_pow2_pos((ea - 1) as nat);
                assert((p + fa) * w < (p + fb) * w) by (nonlinear_arith)
                    requires
                        fa < fb,
                        w > 0,
                ;
            }
        } else {
            assert(ea < eb);
            let wb = pow2((eb - 1) as nat) as int;
            lemma_pow2_pos((eb - 1) as nat);
            assert(p * wb <= (p + fb) * wb) by (nonlinear_arith)
                requires
                    fb >= 0,
                    wb > 0,
            ;
            if ea == 0 {
                assert(p * 1 <= p * wb) by (nonlinear_arith)
                    requires
                        p > 0,
                        wb >= 1,
                ;
            } else {
                let wa = pow2((ea - 1) as nat) as int;
                lemma_pow2_pos((ea - 1) as nat);
                lemma_pow2_unfold(ea);
                if ea < eb - 1 {
                    lemma_pow2_strictly_increases(ea, (eb - 1) as nat);
                }
                assert(pow2(ea) <= wb);
                assert((p + fa) * wa < p * (2 * wa)) by (nonlinear_arith)
                    requires
                        fa < p,
                        wa > 0,
                ;
                assert(p * (2 * wa) <= p * wb) by (nonlinear_arith)
                    requires
                        p > 0,
                        2 * wa <= wb,
                ;
            }
        }
    }
}

/// Where the bounds of a range are integers, lying within it is what it is
/// for numbers: at least the one and at most the other.
pub proof fn lemma_within_integers(x: F64Bits, low: F64Bits, high: F64Bits, lo: int, hi: int)
    requires
        low.is_integer(lo),
        high.is_integer(hi),
    ensures
        x.within_spec(low, high) <==> x.at_least(lo) && x.at_most(hi),
{
    if !x.is_nan_spec() && !x.is_finite() {
        lemma_magnitudes_order(low, x);
        lemma_magnitudes_order(high, x);
    }
}

/// Where a bound is an integer, being above it is what it is for numbers.
pub proof fn lemma_above_integer(x: F64Bits, low: F64Bits, lo: int)
    requires
        low.is_integer(lo),
    ensures
        low.lt_spec(x) <==> x.greater_than(lo),
{
    if !x.is_nan_spec() && !x.is_finite() {
        lemma_magnitudes_order(low, x);
    }
}

/// The patterns of the integers that bound the ranges of the parameters.
pub proof fn lemma_small_integers()
    ensures
        F64Bits::from_bits(0).is_integer(0),
        F64Bits::from_bits(0x3ff0_0000_0000_0000).is_integer(1),
        F64Bits::from_bits(0x4000_0000_0000_0000).is_integer(2),
        F64Bits::from_bits(0xc000_0000_0000_0000).is_integer(-2),
{
    lemma2_to64_rest();
    lemma_pow2_adds(52, 1022);
    lemma_pow2_adds(52, 1023);
    lemma_pow2_unfold(1075);
    let one = F64Bits::from_bits(0x3ff0_0000_0000_0000);
    assert(one.exponent() == 1023 && one.fraction() == 0);
    let two = F64Bits::from_bits(0x4000_0000_0000_0000);
    assert(two.exponent() == 1024 && two.fraction() == 0);
    let minus_two = F64Bits::from_bits(0xc000_0000_0000_0000);
    assert(minus_two.magnitude() == 0x4000_0000_0000_0000);
    assert(minus_two.exponent() == 1024 && minus_two.fraction() == 0);
}

} // verus!
