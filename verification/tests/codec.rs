use agcod::codec::{header_value_ok, i64_to_decimal, json_quote, u64_to_decimal};

#[test]
fn decimal_rendering_of_unsigned_values() {
    assert_eq!(u64_to_decimal(0), "0");
    assert_eq!(u64_to_decimal(5), "5");
    assert_eq!(u64_to_decimal(10), "10");
    assert_eq!(u64_to_decimal(12345), "12345");
    assert_eq!(u64_to_decimal(u64::MAX), "18446744073709551615");
}

#[test]
fn decimal_rendering_of_signed_values() {
    assert_eq!(i64_to_decimal(0), "0");
    assert_eq!(i64_to_decimal(-1), "-1");
    assert_eq!(i64_to_decimal(42), "42");
    assert_eq!(i64_to_decimal(i64::MIN), "-9223372036854775808");
}

#[test]
fn json_quoting_escapes_what_json_asks_for() {
    assert_eq!(json_quote("plain"), "\"plain\"");
    assert_eq!(json_quote("a\"b"), "\"a\\\"b\"");
    assert_eq!(json_quote("a\\b"), "\"a\\\\b\"");
    assert_eq!(json_quote("a\nb\tc\rd"), "\"a\\nb\\tc\\rd\"");
    assert_eq!(json_quote("\u{8}\u{c}"), "\"\\b\\f\"");
    assert_eq!(json_quote("\u{1}\u{1f}"), "\"\\u0001\\u001f\"");
    assert_eq!(json_quote(""), "\"\"");
    assert_eq!(json_quote("caf\u{e9}"), "\"caf\u{e9}\"");
}

#[test]
fn header_values_follow_the_encoding_rules() {
    assert!(header_value_ok("application/json"));
    assert!(header_value_ok("with\ttab"));
    assert!(header_value_ok(""));
    assert!(!header_value_ok("line\nbreak"));
    assert!(!header_value_ok("del\u{7f}here"));
    assert!(!header_value_ok("bell\u{7}"));
}
