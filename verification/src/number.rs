//! Numbers that the desk computes with.
//!
//! Every amount is an IEEE 754 binary64 number. A [`Double`] holds such a
//! number by its bit pattern, and the questions that decide what happens next
//! (is it zero, is it a percentage, which whole number is nearest) are answered
//! here from the exact value. A computation is an [`Expr`]: it fixes which
//! operations are applied to which operands and in which order, and whoever
//! needs the number evaluates it in binary64 arithmetic.

use vstd::arithmetic::power2::{
    lemma2_to64, lemma2_to64_rest, lemma_pow2_pos, lemma_pow2_strictly_increases, pow2,
};
use vstd::bits::lemma_u64_shl_is_mul;
use vstd::prelude::*;

verus! {

/// Two to the power of the width of the fraction field.
pub const FRACTION_UNIT: u64 = 0x10_0000_0000_0000;

/// Two to the power of the width of the exponent field.
pub const EXPONENT_UNIT: u64 = 0x800;

/// Bit pattern of negative zero: the sign bit alone.
pub const SIGN_BIT: u64 = 0x8000_0000_0000_0000;

/// A binary64 number, held by its bit pattern.
#[derive(Clone, Copy, Debug, PartialEq, Eq, Structural)]
pub struct Double {
    pub bits: u64,
}

impl Double {
    /// The biased exponent field.
    pub open spec fn exponent_field(self) -> nat {
        ((self.bits as int / FRACTION_UNIT as int) % (EXPONENT_UNIT as int)) as nat
    }

    /// The fraction field.
    pub open spec fn fraction_field(self) -> nat {
        (self.bits as int % FRACTION_UNIT as int) as nat
    }

    /// Whether the sign bit is set.
    pub open spec fn negative(self) -> bool {
        self.bits >= SIGN_BIT
    }

    /// Whether this is not a number.
    pub open spec fn nan(self) -> bool {
        self.exponent_field() == EXPONENT_UNIT - 1 && self.fraction_field() != 0
    }

    /// Whether this is positive or negative infinity.
    pub open spec fn infinite(self) -> bool {
        self.exponent_field() == EXPONENT_UNIT - 1 && self.fraction_field() == 0
    }

    /// Whether this is a finite number.
    pub open spec fn finite(self) -> bool {
        self.exponent_field() != EXPONENT_UNIT - 1
    }

    /// The integer that the power of two of [`Self::exponent`] scales.
    pub open spec fn significand(self) -> nat {
        if self.exponent_field() == 0 {
            self.fraction_field()
        } else {
            FRACTION_UNIT as nat + self.fraction_field()
        }
    }

    /// The power of two that scales the significand.
    pub open spec fn exponent(self) -> int {
        if self.exponent_field() == 0 {
            -1074
        } else {
            self.exponent_field() - 1075
        }
    }

    /// Numerator of the exact absolute value of a finite number.
    pub open spec fn numerator(self) -> nat {
        if self.exponent() >= 0 {
            self.significand() * pow2(self.exponent() as nat)
        } else {
            self.significand()
        }
    }

    /// Denominator of the exact absolute value of a finite number.
    pub open spec fn denominator(self) -> nat {
        if self.exponent() >= 0 {
            1
        } else {
            pow2((-self.exponent()) as nat)
        }
    }

    /// Whether this is positive or negative zero.
    pub open spec fn zero(self) -> bool {
        self.finite() && self.numerator() == 0
    }

    /// Whether this is a number from zero to a hundred.
    pub open spec fn percentage(self) -> bool {
        &&& self.finite()
        &&& self.negative() ==> self.zero()
        &&& self.numerator() <= 100 * self.denominator()
    }

    /// The whole number nearest to the absolute value of a finite number, the
    /// larger one where two are equally near.
    pub open spec fn nearest(self) -> nat {
        (2 * self.numerator() + self.denominator()) / (2 * self.denominator())
    }

    /// [`Self::nearest`], cut off at the largest 64 bit integer.
    pub open spec fn magnitude(self) -> u64 {
        if self.infinite() || self.nearest() > u64::MAX {
            u64::MAX
        } else {
            self.nearest() as u64
        }
    }

    /// The same number with the other sign.
    pub open spec fn opposite(self) -> Double {
        if self.negative() {
            Double { bits: (self.bits - SIGN_BIT) as u64 }
        } else {
            Double { bits: (self.bits + SIGN_BIT) as u64 }
        }
    }

    /// The number that has this bit pattern.
    pub fn from_bits(bits: u64) -> (number: Double)
        ensures
            number.bits == bits,
    {
        Double { bits }
    }

    /// The bit pattern of this number.
    pub fn to_bits(self) -> (bits: u64)
        ensures
            bits == self.bits,
    {
        self.bits
    }

    /// Whether this is not a number.
    pub fn is_nan(self) -> (answer: bool)
        ensures
            answer == self.nan(),
    {
        self.bits / FRACTION_UNIT % EXPONENT_UNIT == EXPONENT_UNIT - 1 && self.bits % FRACTION_UNIT
            != 0
    }

    /// Whether this is positive or negative zero.
    pub fn is_zero(self) -> (answer: bool)
        ensures
            answer == self.zero(),
    {
        proof {
            self.lemma_zero();
        }
        self.bits == 0 || self.bits == SIGN_BIT
    }

    /// Whether this is a number from zero to a hundred.
    pub fn is_percentage(self) -> (answer: bool)
        ensures
            answer == self.percentage(),
    {
        let field: u64 = self.bits / FRACTION_UNIT % EXPONENT_UNIT;
        if field == EXPONENT_UNIT - 1 {
            return false;
        }
        if self.bits > SIGN_BIT {
            proof {
                self.lemma_zero();
            }
            return false;
        }
        proof {
            self.lemma_zero();
            lemma2_to64();
            lemma2_to64_rest();
        }
        if field >= 1075 {
            proof {
                let power = pow2(self.exponent() as nat);
                lemma_pow2_pos(self.exponent() as nat);
                assert(self.significand() * power >= self.significand()) by (nonlinear_arith)
                    requires
                        power > 0,
                ;
            }
            return false;
        }
        let fraction: u64 = self.bits % FRACTION_UNIT;
        let significand: u64 = if field == 0 {
            fraction
        } else {
            FRACTION_UNIT + fraction
        };
        let shift: u64 = if field == 0 {
            1074
        } else {
            1075 - field
        };
        if shift >= 53 {
            proof {
                lemma_pow2_at_least(53, shift as nat);
            }
            return true;
        }
        proof {
            lemma_pow2_at_least(shift as nat, 52);
            lemma_u64_shl_is_mul(1, shift);
        }
        significand <= 100 * (1u64 << shift)
    }

    /// The whole number nearest to the absolute value, cut off at the largest
    /// 64 bit integer.
    pub fn round_magnitude(self) -> (magnitude: u64)
        requires
            !self.nan(),
        ensures
            magnitude == self.magnitude(),
    {
        let field: u64 = self.bits / FRACTION_UNIT % EXPONENT_UNIT;
        let fraction: u64 = self.bits % FRACTION_UNIT;
        if field == EXPONENT_UNIT - 1 {
            return u64::MAX;
        }
        let significand: u64 = if field == 0 {
            fraction
        } else {
            FRACTION_UNIT + fraction
        };
        proof {
            lemma2_to64();
            lemma2_to64_rest();
        }
        if field >= 1075 {
            let shift: u64 = field - 1075;
            proof {
                assert(self.numerator() == significand * pow2(shift as nat));
                let whole = self.numerator();
                assert(2 * self.denominator() == 2);
                assert((2 * whole + 1) / 2 == whole);
            }
            if shift >= 12 {
                proof {
                    lemma_pow2_at_least(12, shift as nat);
                    let power = pow2(shift as nat);
                    assert(significand * power >= FRACTION_UNIT * 4096) by (nonlinear_arith)
                        requires
                            significand >= FRACTION_UNIT,
                            power >= 4096,
                    ;
                }
                return u64::MAX;
            }
            proof {
                lemma_pow2_at_least(shift as nat, 11);
                let power = pow2(shift as nat);
                assert(significand * power <= (2 * FRACTION_UNIT - 1) * 2048) by (nonlinear_arith)
                    requires
                        significand <= 2 * FRACTION_UNIT - 1,
                        power <= 2048,
                ;
                lemma_u64_shl_is_mul(significand, shift);
            }
            return significand << shift;
        }
        let shift: u64 = if field == 0 {
            1074
        } else {
            1075 - field
        };
        if shift >= 54 {
            proof {
                lemma_pow2_at_least(54, shift as nat);
                let unit = pow2(shift as nat);
                assert((2 * significand + unit) / (2 * unit as int) == 0) by (nonlinear_arith)
                    requires
                        0 <= 2 * significand < unit,
                ;
            }
            return 0;
        }
        proof {
            lemma_pow2_at_least(shift as nat, 53);
            lemma_pow2_pos(shift as nat);
            lemma_u64_shl_is_mul(1, shift);
        }
        let unit: u64 = 1u64 << shift;
        (2 * significand + unit) / (2 * unit)
    }

    /// Zero has exactly two bit patterns.
    proof fn lemma_zero(self)
        ensures
            self.zero() <==> (self.bits == 0 || self.bits == SIGN_BIT),
    {
        let power = pow2(self.exponent() as nat);
        if self.exponent() >= 0 {
            lemma_pow2_pos(self.exponent() as nat);
            assert(self.significand() * power > 0) by (nonlinear_arith)
                requires
                    self.significand() > 0,
                    power > 0,
            ;
        }
    }
}

impl Double {
    /// Law: the nearest whole number is at most one half away from the absolute
    /// value of a finite number, and an exact half is rounded up.
    pub proof fn nearest_is_within_half(self)
        requires
            self.finite(),
        ensures
            2 * self.numerator() - self.denominator() < 2 * self.nearest() * self.denominator()
                <= 2 * self.numerator() + self.denominator(),
    {
        let n = self.numerator() as int;
        let d = self.denominator() as int;
        if self.exponent() < 0 {
            lemma_pow2_pos((-self.exponent()) as nat);
        }
        let q = (2 * n + d) / (2 * d);
        assert(2 * n - d < 2 * q * d <= 2 * n + d) by (nonlinear_arith)
            requires
                d > 0,
                q == (2 * n + d) / (2 * d),
        ;
    }

    /// Law: changing the sign changes the sign alone. The absolute value, and
    /// with it the magnitude, stays as it is.
    pub proof fn opposite_keeps_magnitude(self)
        ensures
            self.opposite().negative() == !self.negative(),
            self.opposite().nan() == self.nan(),
            self.opposite().zero() == self.zero(),
            self.opposite().infinite() == self.infinite(),
            self.opposite().numerator() == self.numerator(),
            self.opposite().denominator() == self.denominator(),
            self.opposite().magnitude() == self.magnitude(),
            self.opposite().opposite() == self,
    {
        assert(self.opposite().exponent_field() == self.exponent_field());
        assert(self.opposite().fraction_field() == self.fraction_field());
    }
}

/// A computation in binary64 arithmetic.
#[derive(Debug, PartialEq, Eq)]
pub enum Expr {
    /// A number that is known.
    Number(Double),
    /// A whole number constant.
    Integer(u64),
    /// The operand with the other sign.
    Negation(Box<Expr>),
    /// The whole number nearest to the operand, halves away from zero.
    Rounding(Box<Expr>),
    /// The first operand plus the second.
    Sum(Box<Expr>, Box<Expr>),
    /// The first operand minus the second.
    Difference(Box<Expr>, Box<Expr>),
    /// The first operand times the second.
    Product(Box<Expr>, Box<Expr>),
    /// The first operand divided by the second.
    Quotient(Box<Expr>, Box<Expr>),
}

/// The known number `value`.
pub open spec fn number(value: Double) -> Expr {
    Expr::Number(value)
}

/// The whole number `value`.
pub open spec fn integer(value: u64) -> Expr {
    Expr::Integer(value)
}

/// `-e`.
pub open spec fn negation(e: Expr) -> Expr {
    Expr::Negation(Box::new(e))
}

/// `e` rounded to the nearest whole number.
pub open spec fn rounding(e: Expr) -> Expr {
    Expr::Rounding(Box::new(e))
}

/// `a + b`.
pub open spec fn sum(a: Expr, b: Expr) -> Expr {
    Expr::Sum(Box::new(a), Box::new(b))
}

/// `a - b`.
pub open spec fn difference(a: Expr, b: Expr) -> Expr {
    Expr::Difference(Box::new(a), Box::new(b))
}

/// `a * b`.
pub open spec fn product(a: Expr, b: Expr) -> Expr {
    Expr::Product(Box::new(a), Box::new(b))
}

/// `a / b`.
pub open spec fn quotient(a: Expr, b: Expr) -> Expr {
    Expr::Quotient(Box::new(a), Box::new(b))
}

impl Expr {
    /// `-self`.
    pub fn negated(self) -> (result: Expr)
        ensures
            result == negation(self),
    {
        Expr::Negation(Box::new(self))
    }

    /// `self` rounded to the nearest whole number.
    pub fn rounded(self) -> (result: Expr)
        ensures
            result == rounding(self),
    {
        Expr::Rounding(Box::new(self))
    }

    /// `self + other`.
    pub fn plus(self, other: Expr) -> (result: Expr)
        ensures
            result == sum(self, other),
    {
        Expr::Sum(Box::new(self), Box::new(other))
    }

    /// `self - other`.
    pub fn minus(self, other: Expr) -> (result: Expr)
        ensures
            result == difference(self, other),
    {
        Expr::Difference(Box::new(self), Box::new(other))
    }

    /// `self * other`.
    pub fn times(self, other: Expr) -> (result: Expr)
        ensures
            result == product(self, other),
    {
        Expr::Product(Box::new(self), Box::new(other))
    }

    /// `self / other`.
    pub fn over(self, other: Expr) -> (result: Expr)
        ensures
            result == quotient(self, other),
    {
        Expr::Quotient(Box::new(self), Box::new(other))
    }
}

impl Clone for Expr {
    fn clone(&self) -> (result: Expr)
        ensures
            result == *self,
        decreases self,
    {
        match self {
            Expr::Number(value) => Expr::Number(*value),
            Expr::Integer(value) => Expr::Integer(*value),
            Expr::Negation(e) => Expr::Negation(Box::new((&**e).clone())),
            Expr::Rounding(e) => Expr::Rounding(Box::new((&**e).clone())),
            Expr::Sum(a, b) => Expr::Sum(Box::new((&**a).clone()), Box::new((&**b).clone())),
            Expr::Difference(a, b) => Expr::Difference(
                Box::new((&**a).clone()),
                Box::new((&**b).clone()),
            ),
            Expr::Product(a, b) => Expr::Product(
                Box::new((&**a).clone()),
                Box::new((&**b).clone()),
            ),
            Expr::Quotient(a, b) => Expr::Quotient(
                Box::new((&**a).clone()),
                Box::new((&**b).clone()),
            ),
        }
    }
}

/// A larger exponent gives a larger power of two.
proof fn lemma_pow2_at_least(small: nat, large: nat)
    requires
        small <= large,
    ensures
        pow2(small) <= pow2(large),
{
    if small < large {
        lemma_pow2_strictly_increases(small, large);
    }
}

} // verus!
