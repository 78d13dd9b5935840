use astock::decimal::Decimal;
use astock::engine::Signal;
use astock::strategies::{
    band_break_signal, cross_signal, DualMaStrategy, KdjCrossStrategy, MacdCrossStrategy, RsiReversalStrategy,
};

fn d(n: i64) -> Option<Decimal> {
    Some(Decimal::from_i64(n))
}

#[test]
fn crosses_buy_up_and_sell_down() {
    assert_eq!(cross_signal(d(1), d(2), d(3), d(2)), Signal::Buy);
    assert_eq!(cross_signal(d(2), d(2), d(3), d(2)), Signal::Buy);
    assert_eq!(cross_signal(d(3), d(2), d(1), d(2)), Signal::Sell);
    assert_eq!(cross_signal(d(3), d(2), d(4), d(2)), Signal::Hold);
    assert_eq!(cross_signal(None, d(2), d(4), d(2)), Signal::Hold);
}

#[test]
fn dual_ma_waits_for_the_long_period() {
    let s = DualMaStrategy::default_periods();
    assert_eq!((s.short_period, s.long_period), (5, 20));
    let short: Vec<Option<Decimal>> = (0..25).map(|i| if i < 21 { d(1) } else { d(3) }).collect();
    let long: Vec<Option<Decimal>> = (0..25).map(|_| d(2)).collect();
    assert_eq!(s.signal_from(21, &short, &long), Signal::Buy);
    assert_eq!(s.signal_from(22, &short, &long), Signal::Hold);
    let early_short: Vec<Option<Decimal>> = (0..25).map(|i| if i < 10 { d(1) } else { d(3) }).collect();
    assert_eq!(s.signal_from(10, &early_short, &long), Signal::Hold);
}

#[test]
fn macd_follows_the_histogram_sign() {
    let s = MacdCrossStrategy;
    let mut h: Vec<Option<Decimal>> = vec![d(-1); 40];
    h[36] = d(1);
    assert_eq!(s.signal_from(36, &h), Signal::Buy);
    h[37] = d(-2);
    assert_eq!(s.signal_from(37, &h), Signal::Sell);
    assert_eq!(s.signal_from(20, &h), Signal::Hold);
}

#[test]
fn rsi_leaves_the_extreme_zones() {
    let s = RsiReversalStrategy::default_levels();
    let mut r: Vec<Option<Decimal>> = vec![d(50); 20];
    r[15] = d(25);
    r[16] = d(30);
    assert_eq!(s.signal_from(16, &r), Signal::Buy);
    r[17] = d(75);
    r[18] = d(70);
    assert_eq!(s.signal_from(18, &r), Signal::Sell);
    assert_eq!(s.signal_from(19, &r), Signal::Hold);
}

#[test]
fn kdj_and_bands() {
    let s = KdjCrossStrategy;
    let k = vec![d(10); 12];
    let mut dv = vec![d(10); 12];
    dv[11] = d(5);
    assert_eq!(s.signal_from(11, &k, &dv), Signal::Buy);
    assert_eq!(s.signal_from(5, &k, &dv), Signal::Hold);
    // close rises back above the lower band
    let one = Decimal::from_i64(1);
    let ten = Decimal::from_i64(10);
    assert_eq!(
        band_break_signal(Decimal::from_i64(4), Decimal::from_i64(6), Some(ten), Some(Decimal::from_i64(5)), Some(ten), Some(Decimal::from_i64(5))),
        Signal::Buy
    );
    assert_eq!(
        band_break_signal(Decimal::from_i64(11), Decimal::from_i64(9), Some(ten), Some(one), Some(ten), Some(one)),
        Signal::Sell
    );
}
