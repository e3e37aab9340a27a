use sol_units::amount::{Amount, INFINITY_BITS, SIGN_BIT};
use sol_units::unit::Unit;

#[test]
fn test_unit_from_str_valid_values() {
    assert_eq!(Unit::from_str("sol").unwrap(), Unit::Sol);
    assert_eq!(Unit::from_str("lamport").unwrap(), Unit::Lamport);
    assert_eq!(Unit::from_str("micro_lamport").unwrap(), Unit::MicroLamport);
}

#[test]
fn unit_from_str_rejects_everything_else() {
    let strangers = [
        "",
        " ",
        "bogus",
        "SOL",
        "Sol",
        "sol ",
        " sol",
        "so",
        "sols",
        "lamports",
        "Lamport",
        "micro-lamport",
        "micro_lamports",
        "microlamport",
        "micro_lamport\n",
        "s\u{00f6}l",
    ];
    for token in strangers {
        assert_eq!(Unit::from_str(token), Err("Invalid unit type"), "token {token:?}");
    }
}

#[test]
fn unit_from_str_tells_tokens_of_one_length_apart() {
    assert_eq!(Unit::from_str("sol"), Ok(Unit::Sol));
    assert_eq!(Unit::from_str("sox"), Err("Invalid unit type"));
    assert_eq!(Unit::from_str("lamport"), Ok(Unit::Lamport));
    assert_eq!(Unit::from_str("lamporT"), Err("Invalid unit type"));
    assert_eq!(Unit::from_str("micro_lamport"), Ok(Unit::MicroLamport));
    assert_eq!(Unit::from_str("macro_lamport"), Err("Invalid unit type"));
}

#[test]
fn units_compare_by_variant() {
    assert_eq!(Unit::Sol, Unit::Sol);
    assert_ne!(Unit::Sol, Unit::Lamport);
    assert_ne!(Unit::Lamport, Unit::MicroLamport);
    assert_ne!(Unit::MicroLamport, Unit::Sol);
}

#[test]
fn amount_keeps_its_encoding() {
    for bits in [0u64, 1, 0x3ff0_0000_0000_0000, SIGN_BIT, INFINITY_BITS, u64::MAX] {
        assert_eq!(Amount::from_bits(bits).to_bits(), bits);
        assert_eq!(Amount::from_bits(bits), Amount { bits });
    }
    assert_eq!(Amount::from_bits(1.0f64.to_bits()).to_bits(), 0x3ff0_0000_0000_0000);
}

#[test]
fn encoding_constants_are_those_of_a_double() {
    assert_eq!(SIGN_BIT, (-0.0f64).to_bits());
    assert_eq!(INFINITY_BITS, f64::INFINITY.to_bits());
    assert_eq!(SIGN_BIT + INFINITY_BITS, f64::NEG_INFINITY.to_bits());
}

#[test]
fn is_negative_agrees_with_comparison_below_zero() {
    let samples = [
        0.0,
        -0.0,
        1.0,
        -1.0,
        -5.0,
        0.0001,
        -0.0001,
        5e-324,
        -5e-324,
        f64::MIN_POSITIVE,
        -f64::MIN_POSITIVE,
        f64::MAX,
        f64::MIN,
        f64::INFINITY,
        f64::NEG_INFINITY,
        f64::NAN,
        -f64::NAN,
        f64::EPSILON,
        -f64::EPSILON,
        1e15,
        -1e15,
    ];
    for x in samples {
        assert_eq!(Amount::from_bits(x.to_bits()).is_negative(), x < 0.0, "value {x:?}");
    }
}

#[test]
fn is_negative_at_the_edges_of_the_encoding() {
    // Zero and negative zero.
    assert!(!Amount::from_bits(0).is_negative());
    assert!(!Amount::from_bits(SIGN_BIT).is_negative());
    // The smallest negative number, and negative infinity.
    assert!(Amount::from_bits(SIGN_BIT + 1).is_negative());
    assert!(Amount::from_bits(SIGN_BIT + INFINITY_BITS).is_negative());
    // Every NaN, whatever its sign bit.
    assert!(!Amount::from_bits(INFINITY_BITS + 1).is_negative());
    assert!(!Amount::from_bits(SIGN_BIT + INFINITY_BITS + 1).is_negative());
    assert!(!Amount::from_bits(u64::MAX).is_negative());
    // The largest positive encodings.
    assert!(!Amount::from_bits(SIGN_BIT - 1).is_negative());
    assert!(!Amount::from_bits(INFINITY_BITS).is_negative());
}

#[test]
fn is_negative_agrees_with_comparison_on_a_sweep_of_encodings() {
    let mut bits: u64 = 0;
    let stride: u64 = 0x0003_1415_9265_3589;
    for _ in 0..20_000 {
        let x = f64::from_bits(bits);
        assert_eq!(Amount::from_bits(bits).is_negative(), x < 0.0, "bits {bits:#x}");
        bits = bits.wrapping_add(stride);
    }
}
