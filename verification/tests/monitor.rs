use astock::decimal::Decimal;
use astock::models::Quote;
use astock::monitor::{
    change_alert, enough_history, is_market_hours_at, price_alert_message, quote_status_line, rule_kind,
    technical_alert_message, technical_triggered, trend_arrow, RuleKind,
};
use astock::report::{BollResult, IndicatorReport, IndicatorValue, KdjResult, MacdResult};
use astock::stock::StockCode;

fn quote(change: Decimal, pct: Decimal) -> Quote {
    Quote {
        code: StockCode::from_raw("600519").unwrap(),
        name: "贵州茅台".to_string(),
        price: Decimal::new(137299, 2),
        prev_close: Decimal::zero(),
        open: Decimal::zero(),
        high: Decimal::zero(),
        low: Decimal::zero(),
        volume: 0,
        turnover: Decimal::zero(),
        bid: Decimal::zero(),
        ask: Decimal::zero(),
        bid_vol: None,
        ask_vol: None,
        change,
        change_pct: pct,
        high_limit: None,
        low_limit: None,
        inner_vol: None,
        outer_vol: None,
        open_vol: None,
        time: String::new(),
        update_time: None,
        stock_status: None,
    }
}

#[test]
fn sessions_are_weekday_mornings_and_afternoons() {
    let t = |h: u32, m: u32, s: u32| h * 3600 + m * 60 + s;
    assert!(is_market_hours_at(0, t(9, 30, 0), 0));
    assert!(is_market_hours_at(4, t(11, 30, 0), 0));
    assert!(!is_market_hours_at(4, t(11, 30, 0), 1));
    assert!(!is_market_hours_at(2, t(12, 0, 0), 0));
    assert!(is_market_hours_at(2, t(13, 0, 0), 0));
    assert!(is_market_hours_at(2, t(15, 0, 0), 0));
    assert!(!is_market_hours_at(2, t(15, 0, 1), 0));
    assert!(!is_market_hours_at(2, t(9, 29, 59), 999_999_999));
    assert!(!is_market_hours_at(5, t(10, 0, 0), 0));
    assert!(!is_market_hours_at(6, t(14, 0, 0), 0));
}

#[test]
fn rules_fall_into_kinds() {
    assert_eq!(rule_kind("price_above"), RuleKind::Price);
    assert_eq!(rule_kind("price_below"), RuleKind::Price);
    assert_eq!(rule_kind("kdj_cross"), RuleKind::Technical);
    assert_eq!(rule_kind("volume_spike"), RuleKind::Other);
    assert!(enough_history(30) && !enough_history(29));
}

fn report(ma5: Option<i64>, ma20: Option<i64>, dif: i64, dea: i64, k: i64, d: Option<i64>) -> IndicatorReport {
    IndicatorReport {
        ma: vec![
            IndicatorValue { name: "MA5".into(), value: ma5.map(Decimal::from_i64) },
            IndicatorValue { name: "MA10".into(), value: None },
            IndicatorValue { name: "MA20".into(), value: ma20.map(Decimal::from_i64) },
        ],
        macd: MacdResult { dif: Some(Decimal::from_i64(dif)), dea: Some(Decimal::from_i64(dea)), histogram: None },
        rsi: None,
        kdj: KdjResult { k: Some(Decimal::from_i64(k)), d: d.map(Decimal::from_i64), j: None },
        boll: BollResult { upper: None, middle: None, lower: None },
        close: Decimal::zero(),
        date: String::new(),
    }
}

#[test]
fn technical_rules_fire_on_a_golden_cross_only() {
    // MA5 from 10 (below MA20 = 11) to 12 (above MA20 = 11): a golden cross.
    let prev = report(Some(10), Some(11), 1, 1, 40, Some(45));
    let last = report(Some(12), Some(11), 2, 1, 50, Some(45));
    assert!(technical_triggered("ma_cross", &prev, &last));
    // DIF from equal to above DEA counts as crossing.
    assert!(technical_triggered("macd_cross", &prev, &last));
    assert!(technical_triggered("kdj_cross", &prev, &last));
    assert!(!technical_triggered("price_above", &prev, &last));
    // Above on both bars: no crossing, no alert.
    assert!(!technical_triggered("ma_cross", &last, &last));
    assert!(!technical_triggered("kdj_cross", &last, &last));
    // A fall through the slow line is no golden cross.
    assert!(!technical_triggered("ma_cross", &last, &prev));
    // An unknown value on either bar: no alert.
    let unknown = report(None, Some(11), 1, 1, 40, None);
    assert!(!technical_triggered("ma_cross", &unknown, &last));
    assert!(!technical_triggered("kdj_cross", &unknown, &last));
    let mut short = report(Some(12), Some(11), 2, 1, 50, Some(45));
    short.ma.truncate(2);
    assert!(!technical_triggered("ma_cross", &prev, &short));
}

#[test]
fn alert_messages_read_as_written() {
    let code = StockCode::from_raw("600519").unwrap();
    assert_eq!(technical_alert_message(&code, "macd_cross"), "600519.SH 触发macd_cross信号");
    assert_eq!(price_alert_message(&code, "贵州茅台", true, "1400"), "600519.SH 贵州茅台 突破 价格1400");
    assert_eq!(price_alert_message(&code, "贵州茅台", false, "10.5"), "600519.SH 贵州茅台 跌破 价格10.5");
}

#[test]
fn moves_beyond_three_percent_raise_an_alert() {
    let up = quote(Decimal::from_i64(50), Decimal::new(312, 2));
    assert_eq!(change_alert(&up).unwrap(), "600519.SH 贵州茅台 涨幅 3.12%");
    let down = quote(Decimal::from_i64(-50), Decimal::new(-3001, 3));
    assert_eq!(change_alert(&down).unwrap(), "600519.SH 贵州茅台 跌幅 -3.00%");
    assert!(change_alert(&quote(Decimal::one(), Decimal::from_i64(3))).is_none());
    assert!(change_alert(&quote(Decimal::one(), Decimal::from_i64(-3))).is_none());
}

#[test]
fn status_lines_carry_an_arrow() {
    assert_eq!(trend_arrow(&Decimal::new(1, 2)), "↑");
    assert_eq!(trend_arrow(&Decimal::new(-1, 2)), "↓");
    assert_eq!(trend_arrow(&Decimal::zero()), "→");
    let q = quote(Decimal::new(194, 2), Decimal::new(14, 2));
    assert_eq!(quote_status_line("10:31:05", &q), "[10:31:05] 600519.SH 贵州茅台 1372.99 (0.14%) ↑");
}
