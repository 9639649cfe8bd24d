use wednesday::decimal::{
    dec_i64, dec_u64, format_amount, parse_decimal_micro, parse_signed_decimal_micro,
};

#[test]
fn parses_integer_numerals() {
    assert_eq!(parse_decimal_micro("0"), Some(0));
    assert_eq!(parse_decimal_micro("7"), Some(7_000_000));
    assert_eq!(parse_decimal_micro("50000"), Some(50_000_000_000));
    assert_eq!(parse_decimal_micro("00012"), Some(12_000_000));
}

#[test]
fn parses_fractional_numerals() {
    assert_eq!(parse_decimal_micro("50123.45"), Some(50_123_450_000));
    assert_eq!(parse_decimal_micro("0.001"), Some(1_000));
    assert_eq!(parse_decimal_micro("0.000001"), Some(1));
    assert_eq!(parse_decimal_micro("1.5000"), Some(1_500_000));
}

#[test]
fn truncates_fraction_beyond_six_digits() {
    assert_eq!(parse_decimal_micro("1.2345678"), Some(1_234_567));
    assert_eq!(parse_decimal_micro("0.0000019"), Some(1));
}

#[test]
fn rejects_malformed_numerals() {
    assert_eq!(parse_decimal_micro(""), None);
    assert_eq!(parse_decimal_micro("."), None);
    assert_eq!(parse_decimal_micro("5."), None);
    assert_eq!(parse_decimal_micro(".5"), None);
    assert_eq!(parse_decimal_micro("1e5"), None);
    assert_eq!(parse_decimal_micro("-1"), None);
    assert_eq!(parse_decimal_micro("1.2.3"), None);
    assert_eq!(parse_decimal_micro("12a"), None);
}

#[test]
fn rejects_overflowing_values() {
    // Just beyond u64 micro-units.
    assert_eq!(parse_decimal_micro("18446744073709.551616"), None);
    assert_eq!(parse_decimal_micro("18446744073709.551615"), Some(u64::MAX));
    assert_eq!(parse_decimal_micro("99999999999999999999"), None);
}

#[test]
fn parses_signed_numerals() {
    assert_eq!(parse_signed_decimal_micro("-1.5"), Some(-1_500_000));
    assert_eq!(parse_signed_decimal_micro("2.25"), Some(2_250_000));
    assert_eq!(parse_signed_decimal_micro("-0"), Some(0));
    assert_eq!(parse_signed_decimal_micro("-"), None);
    assert_eq!(parse_signed_decimal_micro("--1"), None);
}

#[test]
fn formats_amounts() {
    assert_eq!(format_amount(50_123_450_000), "50123.45");
    assert_eq!(format_amount(1_000_000), "1");
    assert_eq!(format_amount(0), "0");
    assert_eq!(format_amount(1_500_000), "1.5");
    assert_eq!(format_amount(1), "0.000001");
    assert_eq!(format_amount(100_000), "0.1");
}

#[test]
fn formats_integers() {
    assert_eq!(dec_u64(0), "0");
    assert_eq!(dec_u64(907), "907");
    assert_eq!(dec_i64(-42), "-42");
    assert_eq!(dec_i64(i64::MIN), "-9223372036854775808");
}
