use titan_core::decimal::{div_floor, parse_u64, Decimal};

fn chars(s: &str) -> Vec<char> {
    s.chars().collect()
}

#[test]
fn parses_plain_decimals() {
    assert_eq!(Decimal::parse("95.0"), Some(Decimal { micros: 95_000_000 }));
    assert_eq!(Decimal::parse("0.3"), Some(Decimal { micros: 300_000 }));
    assert_eq!(Decimal::parse("0.15"), Some(Decimal { micros: 150_000 }));
    assert_eq!(Decimal::parse("7"), Some(Decimal { micros: 7_000_000 }));
    assert_eq!(Decimal::parse("0"), Some(Decimal { micros: 0 }));
}

#[test]
fn parses_signs_and_bare_points() {
    assert_eq!(Decimal::parse("-0.25"), Some(Decimal { micros: -250_000 }));
    assert_eq!(Decimal::parse("+3"), Some(Decimal { micros: 3_000_000 }));
    assert_eq!(Decimal::parse("5."), Some(Decimal { micros: 5_000_000 }));
    assert_eq!(Decimal::parse(".5"), Some(Decimal { micros: 500_000 }));
    assert_eq!(Decimal::parse("-.5"), Some(Decimal { micros: -500_000 }));
}

#[test]
fn drops_digits_beyond_the_sixth() {
    assert_eq!(Decimal::parse("0.1234567"), Some(Decimal { micros: 123_456 }));
    assert_eq!(Decimal::parse("1.0000009"), Some(Decimal { micros: 1_000_000 }));
    assert_eq!(Decimal::parse("0.000001"), Some(Decimal { micros: 1 }));
    assert_eq!(Decimal::parse("-0.0000001"), Some(Decimal { micros: 0 }));
}

#[test]
fn refuses_what_is_no_decimal() {
    assert_eq!(Decimal::parse(""), None);
    assert_eq!(Decimal::parse("."), None);
    assert_eq!(Decimal::parse("-"), None);
    assert_eq!(Decimal::parse("+"), None);
    assert_eq!(Decimal::parse("abc"), None);
    assert_eq!(Decimal::parse("1.2.3"), None);
    assert_eq!(Decimal::parse(" 1"), None);
    assert_eq!(Decimal::parse("1e5"), None);
    assert_eq!(Decimal::parse("NaN"), None);
    assert_eq!(Decimal::parse("inf"), None);
    assert_eq!(Decimal::parse("--1"), None);
    assert_eq!(Decimal::parse("1.5x"), None);
}

#[test]
fn parses_up_to_the_ends_of_the_range() {
    assert_eq!(
        Decimal::parse("9223372036854.775807"),
        Some(Decimal { micros: i64::MAX })
    );
    assert_eq!(Decimal::parse("9223372036854.775808"), None);
    assert_eq!(
        Decimal::parse("-9223372036854.775808"),
        Some(Decimal { micros: i64::MIN })
    );
    assert_eq!(Decimal::parse("-9223372036854.775809"), None);
    assert_eq!(Decimal::parse("99999999999999999999999999999999"), None);
}

#[test]
fn builds_from_units_and_saturates() {
    assert_eq!(Decimal::from_units(85), Decimal { micros: 85_000_000 });
    assert_eq!(Decimal::from_units(-2), Decimal { micros: -2_000_000 });
    assert_eq!(Decimal::from_micros(12), Decimal { micros: 12 });
    assert_eq!(Decimal::saturating_from(5), Decimal { micros: 5 });
    assert_eq!(
        Decimal::saturating_from(i64::MAX as i128 + 1),
        Decimal { micros: i64::MAX }
    );
    assert_eq!(
        Decimal::saturating_from(i64::MIN as i128 - 1),
        Decimal { micros: i64::MIN }
    );
}

#[test]
fn parses_unsigned_integers() {
    assert_eq!(parse_u64(&chars("137")), Some(137));
    assert_eq!(parse_u64(&chars("+1")), Some(1));
    assert_eq!(parse_u64(&chars("007")), Some(7));
    assert_eq!(parse_u64(&chars("18446744073709551615")), Some(u64::MAX));
    assert_eq!(parse_u64(&chars("18446744073709551616")), None);
    assert_eq!(parse_u64(&chars("")), None);
    assert_eq!(parse_u64(&chars("+")), None);
    assert_eq!(parse_u64(&chars("-1")), None);
    assert_eq!(parse_u64(&chars(" 1")), None);
    assert_eq!(parse_u64(&chars("1.0")), None);
}

#[test]
fn floor_division_rounds_down() {
    assert_eq!(div_floor(7, 2), 3);
    assert_eq!(div_floor(-7, 2), -4);
    assert_eq!(div_floor(-8, 2), -4);
    assert_eq!(div_floor(0, 5), 0);
    assert_eq!(div_floor(-1, 100), -1);
}
