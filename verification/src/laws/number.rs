//! What holds of numbers and of computations with them.

use crate::number::{
    difference, integer, negation, number, product, quotient, rounding, sum, Double, Expr,
};
use vstd::arithmetic::power2::{lemma2_to64, lemma_pow2_adds, lemma_pow2_pos, pow2};
use vstd::prelude::*;

verus! {

/// The number with this sign, this biased exponent and this fraction.
pub open spec fn binary64(sign: bool, exponent: int, fraction: int) -> Double {
    Double {
        bits: ((if sign {
            0x8000_0000_0000_0000int
        } else {
            0
        }) + exponent * 0x10_0000_0000_0000 + fraction) as u64,
    }
}

/// Whether the parts of a number are in range.
pub open spec fn binary64_parts(exponent: int, fraction: int) -> bool {
    0 <= exponent < 2048 && 0 <= fraction < 0x10_0000_0000_0000
}

/// `2^1075` times the absolute value of a number with these parts.
pub open spec fn scaled_value(exponent: int, fraction: int) -> int {
    if exponent == 0 {
        2 * fraction
    } else {
        (0x10_0000_0000_0000 + fraction) * pow2(exponent as nat)
    }
}

/// The nearest whole number, halves away from zero.
pub open spec fn round_half_away(x: real) -> real {
    let half = (1 as real) / (2 as real);
    if x >= 0 as real {
        (x + half).floor() as real
    } else {
        -((half - x).floor() as real)
    }
}

/// The exact value of a finite number.
pub open spec fn double_value(d: Double) -> real {
    let magnitude = (d.numerator() as real) / (d.denominator() as real);
    if d.negative() {
        -magnitude
    } else {
        magnitude
    }
}

/// What an expression comes to in exact arithmetic.
pub open spec fn exact(e: Expr) -> real
    decreases e,
{
    match e {
        Expr::Number(d) => double_value(d),
        Expr::Integer(n) => n as real,
        Expr::Negation(a) => -exact(*a),
        Expr::Rounding(a) => round_half_away(exact(*a)),
        Expr::Sum(a, b) => exact(*a) + exact(*b),
        Expr::Difference(a, b) => exact(*a) - exact(*b),
        Expr::Product(a, b) => exact(*a) * exact(*b),
        Expr::Quotient(a, b) => exact(*a) / exact(*b),
    }
}

proof fn lemma_floor(y: real, n: int)
    requires
        n as real <= y,
        y < (n as real) + (1 as real),
    ensures
        y.floor() == n,
{
}

proof fn lemma_half(half: real)
    requires
        half == (1 as real) / (2 as real),
    ensures
        half + half == 1 as real,
{
    assert(half + half == 1 as real) by (nonlinear_arith)
        requires
            half == (1 as real) / (2 as real),
    ;
}

/// Law: a whole number rounds to itself.
pub proof fn whole_numbers_are_round(whole: int)
    ensures
        round_half_away(whole as real) == whole as real,
{
    let half = (1 as real) / (2 as real);
    lemma_half(half);
    if whole >= 0 {
        lemma_floor((whole as real) + half, whole);
    } else {
        lemma_floor(half - (whole as real), -whole);
    }
}

/// Law: an arithmetic method makes the operation that it is named after, with
/// the operands in their order, and nothing else.
pub proof fn operations_are_what_they_are_called(
    a: Expr,
    b: Expr,
    plus: Expr,
    minus: Expr,
    times: Expr,
    over: Expr,
)
    requires
        call_ensures(Expr::plus, (a, b), plus),
        call_ensures(Expr::minus, (a, b), minus),
        call_ensures(Expr::times, (a, b), times),
        call_ensures(Expr::over, (a, b), over),
    ensures
        plus == Expr::Sum(Box::new(a), Box::new(b)),
        minus == Expr::Difference(Box::new(a), Box::new(b)),
        times == Expr::Product(Box::new(a), Box::new(b)),
        over == Expr::Quotient(Box::new(a), Box::new(b)),
        exact(plus) == exact(a) + exact(b),
        exact(minus) == exact(a) - exact(b),
        exact(times) == exact(a) * exact(b),
        exact(over) == exact(a) / exact(b),
{
}

/// Law: negating and rounding make the operation that they are named after, and
/// a copy is the same computation.
pub proof fn signs_roundings_and_copies(a: Expr, negated: Expr, rounded: Expr, copy: Expr)
    requires
        call_ensures(Expr::negated, (a,), negated),
        call_ensures(Expr::rounded, (a,), rounded),
        call_ensures(Expr::clone, (&a,), copy),
    ensures
        negated == Expr::Negation(Box::new(a)),
        rounded == Expr::Rounding(Box::new(a)),
        copy == a,
        exact(negated) == -exact(a),
        exact(rounded) == round_half_away(exact(a)),
{
}

/// Law: the words in which contracts speak of computations mean the operations
/// that they are named after.
pub proof fn words_mean_operations(a: Expr, b: Expr, d: Double, n: u64)
    ensures
        number(d) == Expr::Number(d),
        integer(n) == Expr::Integer(n),
        negation(a) == Expr::Negation(Box::new(a)),
        rounding(a) == Expr::Rounding(Box::new(a)),
        sum(a, b) == Expr::Sum(Box::new(a), Box::new(b)),
        difference(a, b) == Expr::Difference(Box::new(a), Box::new(b)),
        product(a, b) == Expr::Product(Box::new(a), Box::new(b)),
        quotient(a, b) == Expr::Quotient(Box::new(a), Box::new(b)),
{
}

/// Law: a number is its bit pattern.
pub proof fn bits_go_both_ways(bits: u64, d: Double, back: u64)
    requires
        call_ensures(Double::from_bits, (bits,), d),
        call_ensures(Double::to_bits, (d,), back),
    ensures
        d.bits == bits,
        back == bits,
{
}

/// The fields of a number are the parts that it was made of.
pub proof fn lemma_parts(sign: bool, exponent: int, fraction: int)
    requires
        binary64_parts(exponent, fraction),
    ensures
        binary64(sign, exponent, fraction).negative() == sign,
        binary64(sign, exponent, fraction).exponent_field() == exponent,
        binary64(sign, exponent, fraction).fraction_field() == fraction,
{
}

/// The exact fraction of a number has the value that its parts give.
proof fn lemma_scaled(sign: bool, exponent: int, fraction: int)
    requires
        binary64_parts(exponent, fraction),
        exponent != 2047,
    ensures
        ({
            let d = binary64(sign, exponent, fraction);
            &&& d.denominator() > 0
            &&& d.numerator() * pow2(1075) == scaled_value(exponent, fraction) * d.denominator()
        }),
{
    let d = binary64(sign, exponent, fraction);
    lemma_parts(sign, exponent, fraction);
    let significand = d.significand() as int;
    if exponent == 0 {
        lemma_pow2_pos(1074);
        lemma_pow2_adds(1, 1074);
        lemma2_to64();
        let unit = pow2(1074) as int;
        assert(fraction * (2 * unit) == (2 * fraction) * unit) by (nonlinear_arith);
    } else if exponent >= 1075 {
        let shift = (exponent - 1075) as nat;
        lemma_pow2_adds(shift, 1075);
        let p = pow2(shift) as int;
        let q = pow2(1075) as int;
        assert((significand * p) * q == significand * (p * q)) by (nonlinear_arith);
    } else {
        let shift = (1075 - exponent) as nat;
        lemma_pow2_pos(shift);
        lemma_pow2_adds(exponent as nat, shift);
        let p = pow2(exponent as nat) as int;
        let q = pow2(shift) as int;
        assert(significand * (p * q) == (significand * p) * q) by (nonlinear_arith);
    }
}

/// Zero has no bit but the sign.
pub proof fn lemma_zero(d: Double)
    ensures
        d.zero() <==> d.bits == 0 || d.bits == 0x8000_0000_0000_0000,
{
    if d.exponent() >= 0 {
        let shift = d.exponent() as nat;
        lemma_pow2_pos(shift);
        let significand = d.significand() as int;
        let p = pow2(shift) as int;
        assert(significand * p > 0) by (nonlinear_arith)
            requires
                significand > 0,
                p > 0,
        ;
    }
    assert(d.bits as int == (d.bits as int / 0x10_0000_0000_0000) * 0x10_0000_0000_0000
        + d.fraction_field());
}

/// Law: what is not a number, and what is zero, as the parts of a number tell it.
pub proof fn kinds_are_recognized(
    sign: bool,
    exponent: int,
    fraction: int,
    nan: bool,
    zero: bool,
)
    requires
        binary64_parts(exponent, fraction),
        call_ensures(Double::is_nan, (binary64(sign, exponent, fraction),), nan),
        call_ensures(Double::is_zero, (binary64(sign, exponent, fraction),), zero),
    ensures
        nan <==> exponent == 2047 && fraction != 0,
        zero <==> exponent == 0 && fraction == 0,
{
    let d = binary64(sign, exponent, fraction);
    lemma_parts(sign, exponent, fraction);
    if exponent != 2047 {
        lemma_scaled(sign, exponent, fraction);
        lemma_pow2_pos(1075);
        lemma_pow2_pos(exponent as nat);
        let n = d.numerator() as int;
        let den = d.denominator() as int;
        let q = pow2(1075) as int;
        let v = scaled_value(exponent, fraction);
        assert(v >= 0 && (v == 0 <==> exponent == 0 && fraction == 0)) by {
            let p = pow2(exponent as nat) as int;
            assert((0x10_0000_0000_0000 + fraction) * p > 0) by (nonlinear_arith)
                requires
                    p > 0,
                    fraction >= 0,
            ;
        }
        assert(n == 0 <==> v == 0) by (nonlinear_arith)
            requires
                n * q == v * den,
                q > 0,
                den > 0,
        ;
    }
}

/// Law: a number is a percentage where it is finite, not below zero and at most
/// a hundred. Negative zero is one.
pub proof fn percentages_are_recognized(sign: bool, exponent: int, fraction: int, answer: bool)
    requires
        binary64_parts(exponent, fraction),
        call_ensures(Double::is_percentage, (binary64(sign, exponent, fraction),), answer),
    ensures
        answer <==> {
            &&& exponent != 2047
            &&& sign ==> exponent == 0 && fraction == 0
            &&& scaled_value(exponent, fraction) <= 100 * pow2(1075)
        },
{
    let d = binary64(sign, exponent, fraction);
    lemma_parts(sign, exponent, fraction);
    if exponent != 2047 {
        lemma_scaled(sign, exponent, fraction);
        lemma_pow2_pos(1075);
        lemma_pow2_pos(exponent as nat);
        let n = d.numerator() as int;
        let den = d.denominator() as int;
        let q = pow2(1075) as int;
        let v = scaled_value(exponent, fraction);
        assert(n <= 100 * den <==> v <= 100 * q) by (nonlinear_arith)
            requires
                n * q == v * den,
                q > 0,
                den > 0,
        ;
        let p = pow2(exponent as nat) as int;
        assert((0x10_0000_0000_0000 + fraction) * p > 0) by (nonlinear_arith)
            requires
                p > 0,
                fraction >= 0,
        ;
        assert(n == 0 <==> v == 0) by (nonlinear_arith)
            requires
                n * q == v * den,
                q > 0,
                den > 0,
        ;
    }
}

/// Law: the magnitude of a finite number is the nearest whole number, halves up,
/// unless that does not fit in 64 bits. Then, and for infinities, it is the
/// largest number that fits. The sign does not matter.
pub proof fn magnitude_is_nearest(sign: bool, exponent: int, fraction: int, magnitude: u64)
    requires
        binary64_parts(exponent, fraction),
        !(exponent == 2047 && fraction != 0),
        call_ensures(Double::round_magnitude, (binary64(sign, exponent, fraction),), magnitude),
    ensures
        exponent == 2047 ==> magnitude == u64::MAX,
        exponent != 2047 ==> 2 * magnitude * pow2(1075) <= 2 * scaled_value(exponent, fraction)
            + pow2(1075),
        exponent != 2047 && magnitude < u64::MAX ==> 2 * scaled_value(exponent, fraction) < (2
            * magnitude + 1) * pow2(1075),
{
    let d = binary64(sign, exponent, fraction);
    lemma_parts(sign, exponent, fraction);
    if exponent != 2047 {
        lemma_scaled(sign, exponent, fraction);
        d.nearest_is_within_half();
        lemma_pow2_pos(1075);
        let n = d.numerator() as int;
        let den = d.denominator() as int;
        let q = pow2(1075) as int;
        let v = scaled_value(exponent, fraction);
        let m = d.nearest() as int;
        assert(2 * m * q <= 2 * v + q && 2 * v < (2 * m + 1) * q) by (nonlinear_arith)
            requires
                n * q == v * den,
                2 * n - den < 2 * m * den <= 2 * n + den,
                q > 0,
                den > 0,
        ;
        let k = magnitude as int;
        assert(2 * k * q <= 2 * m * q) by (nonlinear_arith)
            requires
                k <= m,
                q > 0,
        ;
    }
}

} // verus!
