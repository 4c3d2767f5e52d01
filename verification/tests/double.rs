use quadratic::double::{Double, HIDDEN_BIT, INFINITY_BITS, SIGN_BIT};

fn double(x: f64) -> Double {
    Double { bits: x.to_bits() }
}

fn samples() -> Vec<f64> {
    vec![
        0.0,
        -0.0,
        1.0,
        -1.0,
        2.0,
        -4.0,
        0.5,
        25.0,
        1.1102230246251565e-16,
        f64::MIN_POSITIVE,
        -f64::MIN_POSITIVE,
        f64::from_bits(1),
        f64::from_bits(SIGN_BIT | 1),
        f64::from_bits(HIDDEN_BIT - 1),
        f64::MAX,
        f64::MIN,
        f64::INFINITY,
        f64::NEG_INFINITY,
        f64::NAN,
        -f64::NAN,
        f64::from_bits(INFINITY_BITS | 1),
        f64::from_bits(SIGN_BIT | INFINITY_BITS | 1),
        f64::from_bits(u64::MAX),
    ]
}

#[test]
fn is_positive_agrees_with_greater_than_zero() {
    for x in samples() {
        assert_eq!(double(x).is_positive(), x > 0.0, "{:?}", x);
    }
}

#[test]
fn is_negative_agrees_with_less_than_zero() {
    for x in samples() {
        assert_eq!(double(x).is_negative(), x < 0.0, "{:?}", x);
    }
}

#[test]
fn is_zero_agrees_with_equal_to_zero() {
    for x in samples() {
        assert_eq!(double(x).is_zero(), x == 0.0, "{:?}", x);
    }
}

#[test]
fn is_exactly_zero_agrees_with_the_bits_of_zero() {
    for x in samples() {
        assert_eq!(double(x).is_exactly_zero(), x.to_bits() == 0.0f64.to_bits(), "{:?}", x);
    }
}

#[test]
fn negative_zero_is_zero_and_not_exactly_zero() {
    let x = double(-0.0);
    assert_eq!(x.bits, SIGN_BIT);
    assert!(x.is_zero());
    assert!(!x.is_exactly_zero());
    assert!(!x.is_positive());
    assert!(!x.is_negative());
}

#[test]
fn nan_is_neither_positive_nor_zero_nor_negative() {
    let x = double(f64::NAN);
    assert!(!x.is_positive());
    assert!(!x.is_zero());
    assert!(!x.is_negative());
    assert!(!x.is_exactly_zero());
}

#[test]
fn a_number_has_exactly_one_sign() {
    for x in samples() {
        let d = double(x);
        let count = [d.is_positive(), d.is_zero(), d.is_negative()].iter().filter(|b| **b).count();
        assert_eq!(count, if x.is_nan() { 0 } else { 1 }, "{:?}", x);
    }
}

#[test]
fn infinity_has_a_sign() {
    assert_eq!(double(f64::INFINITY).bits, INFINITY_BITS);
    assert!(double(f64::INFINITY).is_positive());
    assert!(double(f64::NEG_INFINITY).is_negative());
}

#[test]
fn two_and_four_are_the_doubles_of_these_numbers() {
    assert_eq!(f64::from_bits(Double::two().bits), 2.0);
    assert_eq!(f64::from_bits(Double::four().bits), 4.0);
    assert_eq!(HIDDEN_BIT, 1u64 << 52);
}
