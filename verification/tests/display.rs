use astock::decimal::Decimal;
use astock::display::{fmt_amount, fmt_change, fmt_change_pct, price_color, row_change, PriceColor};

#[test]
fn red_up_green_down() {
    assert_eq!(price_color(&Decimal::new(194, 2)), PriceColor::Red);
    assert_eq!(price_color(&Decimal::new(-1, 2)), PriceColor::Green);
    assert_eq!(price_color(&Decimal::zero()), PriceColor::White);
}

#[test]
fn changes_carry_a_plus_sign_when_up() {
    assert_eq!(fmt_change(&Decimal::new(194, 2)), "+1.94");
    assert_eq!(fmt_change(&Decimal::new(-5, 1)), "-0.50");
    assert_eq!(fmt_change(&Decimal::zero()), "0.00");
    assert_eq!(fmt_change_pct(&Decimal::new(14, 2)), "+0.14%");
    assert_eq!(fmt_change_pct(&Decimal::new(-228, 2)), "-2.28%");
}

#[test]
fn amounts_use_wan_and_yi() {
    assert_eq!(fmt_amount(&Decimal::from_i64(4582855939)).unwrap(), "45.82亿");
    assert_eq!(fmt_amount(&Decimal::from_i64(100000000)).unwrap(), "1.00亿");
    assert_eq!(fmt_amount(&Decimal::from_i64(33369)).unwrap(), "3.33万");
    assert_eq!(fmt_amount(&Decimal::new(99995, 1)).unwrap(), "9999.50");
}

#[test]
fn kline_rows_change_against_the_previous_close() {
    let (c, pct) = row_change(Some(Decimal::from_i64(10)), &Decimal::from_i64(11)).unwrap();
    assert_eq!(c, Decimal::one());
    assert_eq!(pct, Decimal::from_i64(10));
    let (c, pct) = row_change(None, &Decimal::from_i64(11)).unwrap();
    assert_eq!((c, pct), (Decimal::zero(), Decimal::zero()));
    let (c, pct) = row_change(Some(Decimal::zero()), &Decimal::from_i64(3)).unwrap();
    assert_eq!((c, pct), (Decimal::from_i64(3), Decimal::zero()));
}
