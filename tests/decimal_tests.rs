use meril_cat::add;
use meril_cat::decimal::{i64_to_text, parse_i32, parse_i64, parse_integer, parse_u64, u64_to_text};

#[test]
fn writes_decimal_text() {
    assert_eq!(u64_to_text(0), "0");
    assert_eq!(u64_to_text(1234567890), "1234567890");
    assert_eq!(u64_to_text(u64::MAX), "18446744073709551615");
    assert_eq!(i64_to_text(-42), "-42");
    assert_eq!(i64_to_text(i64::MIN), "-9223372036854775808");
}

#[test]
fn reads_decimal_text() {
    assert_eq!(parse_integer("123"), Some(123));
    assert_eq!(parse_integer("-7"), Some(-7));
    assert_eq!(parse_integer(""), None);
    assert_eq!(parse_integer("-"), None);
    assert_eq!(parse_integer("12a"), None);
    assert_eq!(parse_integer("1.5"), None);
    assert_eq!(parse_integer("99999999999999999999999"), None);
    assert_eq!(parse_u64("18446744073709551615"), Some(u64::MAX));
    assert_eq!(parse_u64("18446744073709551616"), None);
    assert_eq!(parse_u64("-1"), None);
    assert_eq!(parse_i64("-9223372036854775808"), Some(i64::MIN));
    assert_eq!(parse_i64("9223372036854775808"), None);
    assert_eq!(parse_i32("2147483647"), Some(i32::MAX));
    assert_eq!(parse_i32("2147483648"), None);
}

#[test]
fn text_round_trips() {
    for n in [0u64, 9, 10, 99, 100, 4096, u64::MAX] {
        assert_eq!(parse_u64(&u64_to_text(n)), Some(n));
    }
    for v in [i64::MIN, -1, 0, 1, i64::MAX] {
        assert_eq!(parse_i64(&i64_to_text(v)), Some(v));
    }
}

#[test]
fn adds_counters() {
    assert_eq!(add(2, 2), 4);
}
