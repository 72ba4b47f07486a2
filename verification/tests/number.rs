use vekslosh::number::{Double, Expr};

fn double(value: f64) -> Double {
    Double::from_bits(value.to_bits())
}

fn samples() -> Vec<f64> {
    let mut values = vec![
        0.0,
        -0.0,
        0.25,
        0.49999999999999994,
        0.5,
        0.5000000000000001,
        1.0,
        1.5,
        2.5,
        99.99999999999999,
        100.0,
        100.00000000000001,
        1e8,
        4503599627370495.5,
        4503599627370496.0,
        9007199254740991.0,
        9007199254740992.0,
        9223372036854775808.0,
        18446744073709549568.0,
        18446744073709551616.0,
        1e300,
        f64::MAX,
        f64::MIN_POSITIVE,
        5e-324,
        f64::INFINITY,
        f64::NAN,
    ];
    let mut state: u64 = 0x9e37_79b9_7f4a_7c15;
    for _ in 0..20_000 {
        state = state.wrapping_mul(6364136223846793005).wrapping_add(1442695040888963407);
        values.push(f64::from_bits(state));
        // Magnitudes between one half and 2^70, where rounding has work to do.
        let exponent = 1022 + (state >> 7) % 71;
        values.push(f64::from_bits((exponent << 52) | (state >> 12)));
    }
    let opposite: Vec<f64> = values.iter().map(|value| -value).collect();
    values.extend(opposite);
    values
}

#[test]
fn bits_are_kept() {
    for value in samples() {
        assert_eq!(double(value).to_bits(), value.to_bits());
    }
}

#[test]
fn not_a_number_is_recognized() {
    for value in samples() {
        assert_eq!(double(value).is_nan(), value.is_nan(), "{}", value);
    }
}

#[test]
fn zero_is_recognized() {
    for value in samples() {
        assert_eq!(double(value).is_zero(), value == 0.0, "{}", value);
    }
}

#[test]
fn percentages_are_recognized() {
    for value in samples() {
        let expected = !(value.is_nan() || value > 100.0 || value < 0.0);
        assert_eq!(double(value).is_percentage(), expected, "{}", value);
    }
}

#[test]
fn magnitude_is_the_nearest_whole_number() {
    for value in samples() {
        if !value.is_nan() {
            assert_eq!(double(value).round_magnitude(), value.abs().round() as u64, "{}", value);
        }
    }
}

#[test]
fn halves_are_rounded_up() {
    assert_eq!(double(0.5).round_magnitude(), 1);
    assert_eq!(double(2.5).round_magnitude(), 3);
    assert_eq!(double(-2.5).round_magnitude(), 3);
    assert_eq!(double(0.49999999999999994).round_magnitude(), 0);
}

#[test]
fn large_magnitudes_are_cut_off() {
    assert_eq!(double(f64::INFINITY).round_magnitude(), u64::MAX);
    assert_eq!(double(1e20).round_magnitude(), u64::MAX);
    assert_eq!(double(18446744073709549568.0).round_magnitude(), 18446744073709549568);
}

#[test]
fn expressions_keep_the_order_of_operations() {
    let three = Expr::Integer(3);
    let half = Expr::Number(double(0.5));
    let e = three.clone().over(half.clone()).minus(Expr::Integer(1)).rounded().negated();
    assert_eq!(
        e,
        Expr::Negation(Box::new(Expr::Rounding(Box::new(Expr::Difference(
            Box::new(Expr::Quotient(Box::new(three.clone()), Box::new(half.clone()))),
            Box::new(Expr::Integer(1)),
        )))))
    );
    assert_eq!(
        three.clone().times(half.clone()).plus(three.clone()),
        Expr::Sum(
            Box::new(Expr::Product(Box::new(three.clone()), Box::new(half))),
            Box::new(three),
        )
    );
    assert_eq!(e.clone(), e);
}
