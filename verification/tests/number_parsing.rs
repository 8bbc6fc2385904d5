use inx_eddn::number::{fraction_digits, parse_floating, parse_i128, parse_i32, parse_u64, Floating};

#[test]
fn parses_plain_and_signed_integers() {
    assert_eq!(parse_i128("42"), Some(42));
    assert_eq!(parse_i128("+42"), Some(42));
    assert_eq!(parse_i128("-42"), Some(-42));
    assert_eq!(parse_i128("-0"), Some(0));
    assert_eq!(parse_i128(""), None);
    assert_eq!(parse_i128("-"), None);
    assert_eq!(parse_i128("+"), None);
    assert_eq!(parse_i128("1e5"), None);
    assert_eq!(parse_i128(" 1"), None);
}

#[test]
fn integer_bounds_match_std() {
    assert_eq!(parse_i128("170141183460469231731687303715884105727"), Some(i128::MAX));
    assert_eq!(parse_i128("-170141183460469231731687303715884105728"), Some(i128::MIN));
    assert_eq!(parse_i128("170141183460469231731687303715884105728"), None);
    assert_eq!(parse_i32("2147483647"), Some(i32::MAX));
    assert_eq!(parse_i32("2147483648"), None);
    assert_eq!(parse_i32("-2147483648"), Some(i32::MIN));
    assert_eq!(parse_u64("18446744073709551615"), Some(u64::MAX));
    assert_eq!(parse_u64("18446744073709551616"), None);
    assert_eq!(parse_u64("-0"), None);
    assert_eq!(parse_u64("+7"), Some(7));
    for s in ["0", "12", "-5", "+9", "", "x", "99999999999999999999999999999999999999999"] {
        assert_eq!(parse_i128(s), s.parse::<i128>().ok());
        assert_eq!(parse_i32(s), s.parse::<i32>().ok());
        assert_eq!(parse_u64(s), s.parse::<u64>().ok());
    }
}

#[test]
fn floating_of_number_text() {
    assert_eq!(
        parse_floating("1007.705243"),
        Some(Floating { decimal: 1007705243, floating_point: 6 })
    );
    assert_eq!(parse_floating("-1.479320"), Some(Floating { decimal: -1479320, floating_point: 6 }));
    assert_eq!(parse_floating("8"), Some(Floating { decimal: 8, floating_point: 0 }));
    assert_eq!(parse_floating("1.5e+30"), None);
    assert_eq!(parse_floating("null"), None);
    assert_eq!(fraction_digits("1.2.345"), 1);
    assert_eq!(fraction_digits("12."), 0);
    assert_eq!(fraction_digits("x.\u{e9}"), 2);
}
