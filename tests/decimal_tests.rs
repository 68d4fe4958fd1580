use base_crate::big_decimal_json::{BigDecimalJson, EnvelopeError};
use base_crate::decimal::BigDecimal;
use base_crate::errors::BaseCrateError;

fn dec(s: &str) -> BigDecimal {
    BigDecimal::from_str(s).unwrap()
}

#[test]
fn div_by_zero_test() {
    let div_zero = BigDecimal::one().div(&BigDecimal::zero());
    assert!(div_zero.is_err())
}

#[test]
fn one_over_zero_is_division_by_zero() {
    let r = BigDecimal::one().div(&BigDecimal::zero());
    assert!(matches!(r, Err(BaseCrateError::DivisionByZero)));
    assert!(matches!(BigDecimal::one().div_i32(0), Err(BaseCrateError::DivisionByZero)));
}

#[test]
fn checked_division_quotient() {
    let q = dec("1").div(&dec("4")).unwrap();
    assert!(q == dec("0.25"));
    let q = dec("10").div_i32(4).unwrap();
    assert!(q == dec("2.5"));
}

#[test]
fn divide_and_construct_quotient() {
    let q = BigDecimal::divide_and_into_bigdecimal("3", "2");
    assert!(q == dec("1.5"));
}

#[test]
fn text_round_trip() {
    for s in ["123.4500", "1.0", "1", "-0.001", "0", "98765432109876543210.0123456789"] {
        let v = dec(s);
        let back = dec(&v.to_string());
        assert!(back == v, "{}", s);
    }
    assert!(dec("1.0") == dec("1"));
    assert_eq!(dec("123.4500").to_string(), "123.4500");
}

#[test]
fn parse_rejects_malformed_text() {
    assert!(BigDecimal::from_str("1.2.3").is_err());
    assert!(BigDecimal::from_str("abc").is_err());
    assert!(BigDecimal::from_str("").is_err());
}

#[test]
fn json_envelope_round_trip() {
    for s in ["123.4500", "-7", "0.000001", "1e30"] {
        let v = dec(s);
        let env = BigDecimalJson::from_decimal(v.clone());
        let text = env.decimal_field();
        let back = BigDecimalJson::decode(true, Some(&text)).unwrap().into_decimal();
        assert!(back == v, "{}", s);
    }
}

#[test]
fn json_envelope_errors() {
    assert!(matches!(BigDecimalJson::decode(false, Some("1")), Err(EnvelopeError::NotAnObject)));
    assert!(matches!(BigDecimalJson::decode(true, None), Err(EnvelopeError::MissingDecimal)));
    assert!(matches!(
        BigDecimalJson::decode(true, Some("x1")),
        Err(EnvelopeError::InvalidDecimal(_))
    ));
}

#[test]
fn round_safe_truncates_while_round_rounds() {
    let v = dec("1.999");
    assert_eq!(v.round_safe(2).to_string(), "1.99");
    assert_eq!(v.round(2).to_string(), "2.00");
    assert!(v.round_safe(2) != v.round(2));
}

#[test]
fn round_safe_on_integer_and_wide_digits() {
    assert!(dec("5").round_safe(0) == dec("5"));
    assert_eq!(dec("1.25").round_safe(10).to_string(), "1.25");
    assert_eq!(dec("-1.999").round_safe(1).to_string(), "-1.9");
    assert!(dec("1.25").round_safe_checked(1).unwrap() == dec("1.2"));
}

#[test]
fn scale_to_multiplies_or_truncates() {
    assert_eq!(dec("123").scale_to(2).to_string(), "123.00");
    assert_eq!(dec("123.456").scale_to(1).to_string(), "123.4");
    assert_eq!(dec("-123.456").scale_to(1).to_string(), "-123.4");
    assert_eq!(dec("123.456").scale(), 3);
}

#[test]
fn scale_to2_cuts_the_text() {
    assert_eq!(dec("1.239").scale_to2(2).unwrap().to_string(), "1.23");
    assert_eq!(dec("17").scale_to2(2).unwrap().to_string(), "17");
    assert_eq!(dec("1.5").scale_to2(4).unwrap().to_string(), "1.5");
    assert!(dec("1.239").try_scale_to2(1).unwrap().unwrap() == dec("1.2"));
}

#[test]
fn sum_in_any_order() {
    let a = vec![dec("1.25"), dec("-3"), dec("100.001"), dec("0.5")];
    let b = vec![dec("0.5"), dec("100.001"), dec("1.25"), dec("-3")];
    let sa = BigDecimal::sum(&a);
    let sb = BigDecimal::sum(&b);
    assert!(sa == sb);
    assert!(sa == dec("98.751"));
    assert!(BigDecimal::sum(&vec![]) == BigDecimal::zero());
}

#[test]
fn zero_and_one_identities() {
    for s in ["0", "1.50", "-42.125", "1e-9"] {
        let x = dec(s);
        assert!(BigDecimal::zero().add(&x) == x);
        assert!(BigDecimal::one().mul(&x) == x);
    }
}

#[test]
fn arithmetic_results() {
    assert!(dec("1.1").add(&dec("2.25")) == dec("3.35"));
    assert!(dec("1.1").sub(&dec("2.25")) == dec("-1.15"));
    assert!(dec("1.5").mul(&dec("-2")) == dec("-3"));
    assert!(dec("1.5").neg() == dec("-1.5"));
    assert!(dec("1.5").add_i32(2) == dec("3.5"));
    assert!(dec("1.5").sub_i32(2) == dec("-0.5"));
    assert!(dec("1.5").mul_i32(3) == dec("4.5"));
    let mut acc = dec("1");
    acc.add_assign(dec("0.5"));
    assert!(acc == dec("1.5"));
}

#[test]
fn remainder_takes_sign_of_dividend() {
    assert!(dec("7").rem(&dec("3")) == dec("1"));
    assert!(dec("-7").rem(&dec("3")) == dec("-1"));
    assert!(dec("7.5").rem(&dec("2")) == dec("1.5"));
}

#[test]
fn sign_predicates() {
    let z = BigDecimal::zero();
    assert!(z.is_zero() && !z.is_positive() && !z.is_negative() && !z.gt_zero());
    assert!(dec("0.01").gt_zero() && dec("0.01").is_positive());
    assert!(dec("-0.01").is_negative() && !dec("-0.01").gt_zero());
}

#[test]
fn ordering_between_values() {
    assert!(dec("1.5") < dec("2"));
    assert!(dec("2.00") >= dec("2"));
    assert_eq!(dec("-1").partial_cmp(&dec("-1.0")), Some(std::cmp::Ordering::Equal));
}

#[test]
fn normalized_drops_trailing_zeros() {
    assert_eq!(dec("1.500").normalized().to_string(), "1.5");
    assert!(dec("0.000").normalized() == BigDecimal::zero());
}

#[test]
fn construction_from_integers_and_digits() {
    assert!(BigDecimal::from_i64(-5).unwrap() == dec("-5"));
    assert!(BigDecimal::from_u64(u64::MAX).unwrap() == dec("18446744073709551615"));
    assert!(BigDecimal::from_i32(7) == dec("7"));
    assert!(BigDecimal::string_to_bigdecimal("12345", 2).unwrap() == dec("123.45"));
    assert!(BigDecimal::string_to_bigdecimal("-5", 0).unwrap() == dec("-5"));
    assert!(BigDecimal::string_to_bigdecimal("12a", 2).is_err());
}

#[test]
fn comparison_against_float() {
    let half = BigDecimal::new_from_inner(bigdecimal::BigDecimal::try_from(1.5_f64).unwrap());
    assert!(dec("1.5") == half);
    assert!(bigdecimal::BigDecimal::try_from(f64::NAN).is_err());
}

#[test]
fn scale_to_across_many_digits() {
    let wide = dec("1").scale_to(25);
    assert_eq!(wide.to_string(), "1.0000000000000000000000000");
    assert_eq!(wide.scale(), 25);
    assert!(wide.scale_to(0) == dec("1"));
    assert!(dec("123456789.123456789123456789123").scale_to(2) == dec("123456789.12"));
    assert!(dec("0.9").scale_to(0) == BigDecimal::zero());
}

#[test]
fn integer_conversions_truncate() {
    assert_eq!(dec("12.9").to_i64(), Some(12));
    assert_eq!(dec("-12.9").to_i64(), Some(-12));
    assert_eq!(dec("1e30").to_i64(), None);
    assert_eq!(dec("12.9").to_u64(), Some(12));
    assert_eq!(dec("-1").to_u64(), None);
}

#[test]
fn default_is_zero() {
    assert!(BigDecimal::default() == BigDecimal::zero());
    assert!(BigDecimal::default().is_zero());
}

#[test]
fn digits_must_form_an_integer() {
    assert!(BigDecimal::string_to_bigdecimal("12.5", 2).is_err());
    assert!(BigDecimal::string_to_bigdecimal("", 2).is_err());
    assert!(BigDecimal::string_to_bigdecimal("abc", 0).is_err());
    assert!(BigDecimal::string_to_bigdecimal("+1_000", 1).unwrap() == dec("100"));
}

#[test]
fn scale_to2_refuses_exponent_text() {
    let tiny = dec("0.0000000001");
    let text = tiny.to_string();
    assert!(text.contains('E') || text.contains('e'));
    assert!(tiny.try_scale_to2(2).is_none());
    assert!(dec("1.25").try_scale_to2(1).is_some());
}

#[test]
fn round_to_more_digits_keeps_value() {
    let v = dec("1.25");
    assert!(v.round(5) == v);
    assert_eq!(v.round(5).to_string(), "1.25000");
}
