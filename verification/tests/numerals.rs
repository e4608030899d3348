use icq_relay::dec::{parse_u64, u64_to_dec};

#[test]
fn formats_zero() {
    assert_eq!(u64_to_dec(0), "0");
}

#[test]
fn formats_multi_digit_value() {
    assert_eq!(u64_to_dec(1234567890), "1234567890");
}

#[test]
fn formats_largest_value() {
    assert_eq!(u64_to_dec(u64::MAX), "18446744073709551615");
}

#[test]
fn parses_zero_and_leading_zeros() {
    assert_eq!(parse_u64("0"), Some(0));
    assert_eq!(parse_u64("00123"), Some(123));
}

#[test]
fn parses_largest_value() {
    assert_eq!(parse_u64("18446744073709551615"), Some(u64::MAX));
}

#[test]
fn rejects_overflow() {
    assert_eq!(parse_u64("18446744073709551616"), None);
    assert_eq!(parse_u64("99999999999999999999999"), None);
}

#[test]
fn rejects_empty_and_non_digits() {
    assert_eq!(parse_u64(""), None);
    assert_eq!(parse_u64("12x"), None);
    assert_eq!(parse_u64("-1"), None);
    assert_eq!(parse_u64("+1"), None);
    assert_eq!(parse_u64(" 1"), None);
}

#[test]
fn round_trips_values() {
    for v in [0u64, 1, 9, 10, 99, 100, 500, 1000000, u64::MAX] {
        assert_eq!(parse_u64(&u64_to_dec(v)), Some(v));
    }
}
