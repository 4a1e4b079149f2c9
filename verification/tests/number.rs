use soundlang::number::{
    apply, clearly_apart, convert, nearly_equal, Operation, Real, E, INFINITY, LARGEST, ONE, PI,
    SIGN, TAU, TOLERANCE,
};

fn number(x: f64) -> Real {
    Real::from_bits(x.to_bits())
}

fn float(x: Real) -> f64 {
    f64::from_bits(x.to_bits())
}

fn number_arithmetic(op: Operation, a: Real, b: Real) -> Real {
    let x = float(a);
    let y = float(b);
    number(match op {
        Operation::FromInteger => (a.bits as i64) as f64,
        Operation::Reciprocal => x.recip(),
        Operation::Add => x + y,
        Operation::Subtract => x - y,
        Operation::Multiply => x * y,
        Operation::Divide => x / y,
        Operation::Remainder => x % y,
        Operation::Power => x.powf(y),
        Operation::Sqrt => x.sqrt(),
        Operation::Sin => x.sin(),
        Operation::Cos => x.cos(),
        Operation::Tan => x.tan(),
        Operation::Exp => x.exp(),
        Operation::Log => x.ln(),
        Operation::Max => x.max(y),
        Operation::Min => x.min(y),
    })
}

fn samples() -> Vec<f64> {
    vec![
        0.0,
        -0.0,
        1.0,
        -1.0,
        0.5,
        -0.5,
        0.999_999_999,
        1.000_000_1,
        2.5,
        -2.5,
        1e-300,
        -1e-300,
        5e-324,
        -5e-324,
        1e10,
        -1e10,
        4_503_599_627_370_496.0,
        4_503_599_627_370_497.0,
        9_007_199_254_740_993.0,
        -9_007_199_254_740_993.0,
        9.2e18,
        -9.2e18,
        9_223_372_036_854_775_807.0,
        -9_223_372_036_854_775_808.0,
        1e19,
        -1e19,
        1e300,
        -1e300,
        f64::MAX,
        f64::MIN,
        f64::INFINITY,
        f64::NEG_INFINITY,
        f64::NAN,
        -f64::NAN,
        44100.0,
        0.1 * 44100.0,
        123_456.789,
        -123_456.789,
    ]
}

#[test]
fn constants_are_the_bits_of_the_doubles() {
    assert_eq!(PI, std::f64::consts::PI.to_bits());
    assert_eq!(E, std::f64::consts::E.to_bits());
    assert_eq!(TAU, std::f64::consts::TAU.to_bits());
    assert_eq!(ONE, 1.0f64.to_bits());
    assert_eq!(TOLERANCE, 1e-6f64.to_bits());
    assert_eq!(INFINITY, f64::INFINITY.to_bits());
    assert_eq!(LARGEST, f64::MAX.to_bits());
    assert_eq!(SIGN, (-0.0f64).to_bits());
    assert_eq!(Real::zero().to_bits(), 0.0f64.to_bits());
    assert_eq!(Real::one().to_bits(), 1.0f64.to_bits());
}

#[test]
fn clamp_is_the_clamp_of_doubles() {
    for x in samples() {
        let expected = x.clamp(f64::MIN, f64::MAX);
        assert_eq!(number(x).clamp().to_bits(), expected.to_bits(), "clamp of {x}");
    }
    assert_eq!(float(number(f64::INFINITY).clamp()), f64::MAX);
    assert_eq!(float(number(f64::NEG_INFINITY).clamp()), f64::MIN);
    assert!(float(number(f64::NAN).clamp()).is_nan());
}

#[test]
fn negate_and_abs_are_those_of_doubles() {
    for x in samples() {
        assert_eq!(number(x).negate().to_bits(), (-x).to_bits(), "negation of {x}");
        assert_eq!(number(x).abs().to_bits(), x.abs().to_bits(), "absolute value of {x}");
        assert_eq!(number(x).is_not_a_number(), x.is_nan(), "whether {x} is a number");
    }
}

#[test]
fn order_is_the_order_of_doubles() {
    for x in samples() {
        for y in samples() {
            assert_eq!(number(x).less(number(y)), x < y, "{x} < {y}");
            assert_eq!(number(x).greater(number(y)), x > y, "{x} > {y}");
            assert_eq!(number(x).at_most(number(y)), x <= y, "{x} <= {y}");
        }
    }
}

#[test]
fn integer_part_is_the_cast_of_doubles() {
    for x in samples() {
        assert_eq!(number(x).to_integer(), x as i64, "integer part of {x}");
    }
    assert_eq!(number(2.9).to_integer(), 2);
    assert_eq!(number(-2.9).to_integer(), -2);
    assert_eq!(number(0.99).to_integer(), 0);
    assert_eq!(number(44100.0).to_integer(), 44100);
    assert_eq!(number(f64::NAN).to_integer(), 0);
    assert_eq!(number(1e30).to_integer(), i64::MAX);
    assert_eq!(number(-1e30).to_integer(), i64::MIN);
}

#[test]
fn equality_has_a_tolerance_of_a_millionth() {
    let calc = number_arithmetic;
    assert!(nearly_equal(&calc, number(1.0), number(1.0)));
    assert!(nearly_equal(&calc, number(1.0), number(1.000_000_9)));
    assert!(nearly_equal(&calc, number(1.000_000_9), number(1.0)));
    assert!(!nearly_equal(&calc, number(1.0), number(1.000_002)));
    assert!(!nearly_equal(&calc, number(f64::NAN), number(f64::NAN)));
    assert!(clearly_apart(&calc, number(1.0), number(1.000_002)));
    assert!(!clearly_apart(&calc, number(1.0), number(1.000_000_9)));
    assert!(!clearly_apart(&calc, number(f64::NAN), number(1.0)));
}

#[test]
fn equality_is_reflexive_and_symmetric_on_finite_reals() {
    let calc = number_arithmetic;
    for x in samples() {
        if x.is_finite() {
            assert!(nearly_equal(&calc, number(x), number(x)), "{x} == {x}");
        }
        for y in samples() {
            assert_eq!(
                nearly_equal(&calc, number(x), number(y)),
                nearly_equal(&calc, number(y), number(x)),
                "{x} == {y}"
            );
        }
    }
}

#[test]
fn apply_hands_the_operation_to_the_arithmetic() {
    let calc = number_arithmetic;
    assert_eq!(float(apply(&calc, Operation::Add, number(2.0), number(3.0))), 5.0);
    assert_eq!(float(apply(&calc, Operation::Subtract, number(2.0), number(3.0))), -1.0);
    assert_eq!(float(apply(&calc, Operation::Power, number(2.0), number(10.0))), 1024.0);
    assert_eq!(float(apply(&calc, Operation::Sqrt, number(9.0), number(0.0))), 3.0);
    assert_eq!(float(convert(&calc, -7)), -7.0);
    assert_eq!(float(convert(&calc, i64::MAX)), i64::MAX as f64);
}
