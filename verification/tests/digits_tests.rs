use sweepbench::digits::parse_u64;
use sweepbench::digits::u64_to_decimal;

#[test]
fn renders_canonical_decimal() {
    assert_eq!(u64_to_decimal(0), "0");
    assert_eq!(u64_to_decimal(7), "7");
    assert_eq!(u64_to_decimal(10), "10");
    assert_eq!(u64_to_decimal(12340), "12340");
    assert_eq!(u64_to_decimal(u64::MAX), "18446744073709551615");
}

#[test]
fn parses_canonical_decimal() {
    assert_eq!(parse_u64("0"), Some(0));
    assert_eq!(parse_u64("42"), Some(42));
    assert_eq!(parse_u64("18446744073709551615"), Some(u64::MAX));
}

#[test]
fn rejects_non_canonical_or_overflowing_input() {
    assert_eq!(parse_u64(""), None);
    assert_eq!(parse_u64("01"), None);
    assert_eq!(parse_u64("+1"), None);
    assert_eq!(parse_u64("1x"), None);
    assert_eq!(parse_u64("x"), None);
    assert_eq!(parse_u64("18446744073709551616"), None);
    assert_eq!(parse_u64("99999999999999999999999"), None);
}

#[test]
fn round_trips_through_both_directions() {
    for n in [0u64, 1, 9, 10, 99, 100, 4096, 1_000_000_007, u64::MAX - 1, u64::MAX] {
        assert_eq!(parse_u64(&u64_to_decimal(n)), Some(n));
    }
}
