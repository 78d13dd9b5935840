use astock::costs::{calc_buy_cost, calc_sell_cost, round_lot};
use astock::decimal::Decimal;

#[test]
fn test_buy_cost() {
    let cost = calc_buy_cost(Decimal::from_i64(10), 1000).unwrap();
    assert_eq!(cost, Decimal::new(51, 1));
}

#[test]
fn test_sell_cost() {
    let cost = calc_sell_cost(Decimal::from_i64(10), 1000).unwrap();
    assert_eq!(cost, Decimal::new(101, 1));
}

#[test]
fn test_round_lot() {
    assert_eq!(round_lot(150), 100);
    assert_eq!(round_lot(250), 200);
    assert_eq!(round_lot(100), 100);
}

#[test]
fn large_trades_pay_the_rate_not_the_minimum() {
    // 1372.99 x 10000 = 13729900; commission 4118.97, transfer fee 137.299
    let price = Decimal::new(137299, 2);
    let buy = calc_buy_cost(price, 10000).unwrap();
    assert_eq!(buy, Decimal::new(4256269, 3));
    // plus stamp tax 6864.95
    let sell = calc_sell_cost(price, 10000).unwrap();
    assert_eq!(sell, Decimal::new(11121219, 3));
}

#[test]
fn sell_cost_exceeds_buy_cost_by_the_stamp_tax() {
    let price = Decimal::new(2550, 2);
    let buy = calc_buy_cost(price, 300).unwrap();
    let sell = calc_sell_cost(price, 300).unwrap();
    // amount 7650, stamp tax 3.825
    assert_eq!(sell.checked_sub(&buy).unwrap(), Decimal::new(3825, 3));
}

#[test]
fn round_lot_truncates_toward_zero() {
    assert_eq!(round_lot(99), 0);
    assert_eq!(round_lot(0), 0);
    assert_eq!(round_lot(-150), -100);
}

#[test]
fn a_zero_amount_costs_the_minimum_commission() {
    assert_eq!(calc_buy_cost(Decimal::from_i64(10), 0), Some(Decimal::from_i64(5)));
    assert_eq!(calc_sell_cost(Decimal::zero(), 1000), Some(Decimal::from_i64(5)));
}

#[test]
fn a_negative_amount_follows_the_same_formula() {
    // A = -10000: commission 5 (the minimum), transfer fee -0.1, stamp tax -5.
    assert_eq!(calc_buy_cost(Decimal::from_i64(10), -1000), Some(Decimal::new(49, 1)));
    assert_eq!(calc_sell_cost(Decimal::from_i64(10), -1000), Some(Decimal::new(-1, 1)));
}
