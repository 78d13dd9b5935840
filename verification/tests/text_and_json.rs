use astock::decimal::{format_2dp, parse_decimal, parse_decimal_or_zero, Decimal};
use astock::json::{JsonNumber, JsonValue};
use astock::models::Date;
use astock::text::{join_strings, parse_i64, remove_char, trim_chars};

#[test]
fn i64_text_follows_str_parse() {
    let p = |s: &str| parse_i64(&s.chars().collect::<Vec<char>>());
    assert_eq!(p("33369"), Some(33369));
    assert_eq!(p("+7"), Some(7));
    assert_eq!(p("-9223372036854775808"), Some(i64::MIN));
    assert_eq!(p("9223372036854775807"), Some(i64::MAX));
    assert_eq!(p("9223372036854775808"), None);
    assert_eq!(p("-"), None);
    assert_eq!(p(""), None);
    assert_eq!(p("1.5"), None);
    assert_eq!(p(" 1"), None);
}

#[test]
fn trimming_and_joining() {
    let t: String = trim_chars(&"\u{3000} a b \t\n".chars().collect::<Vec<char>>()).into_iter().collect();
    assert_eq!(t, "a b");
    assert_eq!(join_strings(&vec!["a".into(), "b".into(), "c".into()], ", "), "a, b, c");
    assert_eq!(join_strings(&vec![], "-"), "");
    assert_eq!(remove_char("1,234,567.8", ','), "1234567.8");
}

#[test]
fn decimals_parse_as_rust_decimal_does() {
    assert_eq!(parse_decimal("1372.99").unwrap(), Decimal::new(137299, 2));
    assert_eq!(parse_decimal("-0.5").unwrap(), Decimal::new(-5, 1));
    assert!(parse_decimal("abc").is_none());
    assert_eq!(parse_decimal_or_zero(""), Decimal::zero());
    assert_eq!(Decimal::new(10, 1), Decimal::one());
    assert!(Decimal::new(-1, 0).lt(&Decimal::zero()));
}

#[test]
fn dates_write_as_chrono_does() {
    assert_eq!(Date { year: 2024, month: 1, day: 2 }.to_text(), "2024-01-02");
    assert_eq!(Date { year: 12, month: 11, day: 30 }.to_text(), "0012-11-30");
    assert_eq!(Date { year: 10000, month: 1, day: 1 }.to_text(), "+10000-01-01");
    assert_eq!(Date { year: -1, month: 1, day: 1 }.to_text(), "-0001-01-01");
}

#[test]
fn objects_find_the_first_member_with_a_key() {
    let v = JsonValue::Object(vec![
        ("a".into(), JsonValue::Str("first".into())),
        ("b".into(), JsonValue::Number(JsonNumber { text: "2".into(), int_value: Some(2), decimal_value: Some(Decimal::from_i64(2)) })),
        ("a".into(), JsonValue::Str("second".into())),
    ]);
    assert_eq!(v.text_field("a"), "first");
    assert_eq!(v.text_field("b"), "");
    assert_eq!(v.i64_field("b"), Some(2));
    assert_eq!(v.decimal_field("a"), Decimal::zero());
    assert!(v.get("c").is_none());
    assert!(JsonValue::Null.get("a").is_none());
    assert!(JsonValue::Null.is_null());
}

#[test]
fn two_decimals_are_truncated_and_padded() {
    assert_eq!(format_2dp(&Decimal::new(45828, 3)), "45.82");
    assert_eq!(format_2dp(&Decimal::new(-1, 3)), "-0.00");
    assert_eq!(format_2dp(&Decimal::from_i64(5)), "5.00");
    assert_eq!(format_2dp(&Decimal::new(5, 1)), "0.50");
    assert_eq!(format_2dp(&Decimal::new(-137299, 2)), "-1372.99");
}

#[test]
fn exact_quotients_keep_the_scale_difference() {
    let q = Decimal::from_i64(10200).checked_div(&Decimal::from_i64(10)).unwrap();
    assert_eq!((q.mantissa(), q.scale()), (1020, 0));
    let q = Decimal::new(-1500, 2).checked_div(&Decimal::new(5, 1)).unwrap();
    assert_eq!((q.mantissa(), q.scale()), (-300, 1));
    let z = Decimal::new(0, 3).checked_div(&Decimal::from_i64(7)).unwrap();
    assert_eq!((z.mantissa(), z.scale()), (0, 0));
    assert!(Decimal::from_i64(1).checked_div(&Decimal::zero()).is_none());
}
