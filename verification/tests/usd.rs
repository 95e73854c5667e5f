use provider_quota::usd::UsdAmount;

fn samples() -> Vec<f64> {
    vec![
        0.0,
        -0.0,
        5e-324,
        -5e-324,
        2.225_073_858_507_201e-308,
        2.225_073_858_507_201_4e-308,
        -2.225_073_858_507_201_4e-308,
        0.1,
        1.0,
        -1.0,
        1.000_000_000_000_000_2,
        1.999_999_999_999_999_8,
        2.0,
        4.0,
        100.0,
        -100.0,
        f64::MAX,
        f64::MIN,
        f64::INFINITY,
        f64::NEG_INFINITY,
        f64::NAN,
        -f64::NAN,
        f64::from_bits(0x7ff0_0000_0000_0001),
        f64::from_bits(0xffff_ffff_ffff_ffff),
    ]
}

fn usd(value: f64) -> UsdAmount {
    UsdAmount { bits: value.to_bits() }
}

#[test]
fn amounts_compare_as_numbers() {
    for a in samples() {
        for b in samples() {
            assert_eq!(usd(a) == usd(b), a == b, "{} == {}", a, b);
            assert_eq!(usd(a).is_at_least(&usd(b)), a >= b, "{} >= {}", a, b);
        }
    }
}

#[test]
fn amounts_know_whether_they_are_finite_and_negative() {
    for a in samples() {
        assert_eq!(usd(a).is_finite(), a.is_finite(), "{}", a);
        assert_eq!(usd(a).is_negative(), a < 0.0, "{}", a);
    }
}

#[test]
fn numbers_are_ordered_and_finite_amounts_equal_themselves() {
    assert!(usd(2.0).is_at_least(&usd(1.0)));
    assert!(!usd(1.0).is_at_least(&usd(2.0)));
    assert!(usd(2.0) == usd(2.0));
    assert!(usd(0.0) == usd(-0.0));
    assert!(usd(f64::NAN) != usd(f64::NAN));
}
