use arb_calc::intstr::i128_to_dec;
use arb_calc::parse_i128;

#[test]
fn parses_plain_and_signed_integers() {
    assert_eq!(parse_i128("0"), Some(0));
    assert_eq!(parse_i128("42"), Some(42));
    assert_eq!(parse_i128("+42"), Some(42));
    assert_eq!(parse_i128("-5"), Some(-5));
    assert_eq!(parse_i128("007"), Some(7));
    assert_eq!(parse_i128("-0"), Some(0));
}

#[test]
fn rejects_malformed_integers() {
    assert_eq!(parse_i128(""), None);
    assert_eq!(parse_i128("-"), None);
    assert_eq!(parse_i128("+"), None);
    assert_eq!(parse_i128("abc"), None);
    assert_eq!(parse_i128("12.5"), None);
    assert_eq!(parse_i128("1e3"), None);
    assert_eq!(parse_i128(" 42"), None);
    assert_eq!(parse_i128("42 "), None);
    assert_eq!(parse_i128("4 2"), None);
    assert_eq!(parse_i128("--4"), None);
}

#[test]
fn accepts_the_range_boundaries() {
    assert_eq!(
        parse_i128("170141183460469231731687303715884105727"),
        Some(i128::MAX)
    );
    assert_eq!(
        parse_i128("-170141183460469231731687303715884105728"),
        Some(i128::MIN)
    );
}

#[test]
fn rejects_values_beyond_the_range() {
    assert_eq!(parse_i128("170141183460469231731687303715884105728"), None);
    assert_eq!(parse_i128("-170141183460469231731687303715884105729"), None);
    assert_eq!(
        parse_i128("999999999999999999999999999999999999999999999999"),
        None
    );
}

#[test]
fn renders_canonical_decimal_text() {
    assert_eq!(i128_to_dec(0), "0");
    assert_eq!(i128_to_dec(7), "7");
    assert_eq!(i128_to_dec(-7), "-7");
    assert_eq!(i128_to_dec(1050), "1050");
    assert_eq!(i128_to_dec(i128::MAX), "170141183460469231731687303715884105727");
    assert_eq!(i128_to_dec(i128::MIN), "-170141183460469231731687303715884105728");
}

#[test]
fn rendered_text_parses_back() {
    for v in [0, 1, -1, 90, -110, 10_000_000_000_000_000_000i128, i128::MAX, i128::MIN] {
        assert_eq!(parse_i128(&i128_to_dec(v)), Some(v));
    }
}
