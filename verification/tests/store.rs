use astock::decimal::Decimal;
use astock::stock::StockCode;
use astock::store::{
    alert_rule_from_row, bar_from_row, bars_query, flows_from_rows, position_after_buy, position_after_sell,
    position_from_row, price_levels, tick_query, ticks_from_rows, trade_costs, trade_from_row, trades_query,
    volume_levels, BarRow, FlowRow, PositionChange, TickRow, TradeFigures,
};

#[test]
fn buying_into_a_position_averages_the_cost() {
    match position_after_buy(None, 100, Decimal::from_i64(1350)) {
        Some(PositionChange::Insert { shares, avg_cost }) => {
            assert_eq!(shares, 100);
            assert_eq!(avg_cost, Decimal::from_i64(1350));
        }
        other => panic!("unexpected {:?}", other),
    }
    match position_after_buy(Some((100, Decimal::from_i64(10))), 300, Decimal::from_i64(14)) {
        Some(PositionChange::Update { shares, avg_cost }) => {
            assert_eq!(shares, 400);
            assert_eq!(avg_cost, Decimal::from_i64(13));
        }
        other => panic!("unexpected {:?}", other),
    }
    // a non-positive total takes the new price
    match position_after_buy(Some((100, Decimal::from_i64(10))), -200, Decimal::from_i64(7)) {
        Some(PositionChange::Update { shares, avg_cost }) => {
            assert_eq!(shares, -100);
            assert_eq!(avg_cost, Decimal::from_i64(7));
        }
        other => panic!("unexpected {:?}", other),
    }
    assert!(position_after_buy(Some((i64::MAX, Decimal::one())), 1, Decimal::one()).is_none());
}

#[test]
fn selling_reduces_or_closes() {
    assert!(matches!(position_after_sell(None, 100), Some(PositionChange::Missing)));
    assert!(matches!(position_after_sell(Some(300), 100), Some(PositionChange::Reduce { shares: 200 })));
    assert!(matches!(position_after_sell(Some(300), 300), Some(PositionChange::Close)));
    assert!(matches!(position_after_sell(Some(300), 500), Some(PositionChange::Close)));
    assert!(position_after_sell(Some(i64::MIN), 1).is_none());
}

#[test]
fn trade_costs_break_down_the_total() {
    let buy = trade_costs("BUY", Decimal::from_i64(10), 1000).unwrap();
    assert_eq!(buy.amount, Decimal::from_i64(10000));
    assert_eq!(buy.total_cost, Decimal::new(51, 1));
    assert_eq!(buy.transfer_fee, Decimal::new(1, 1));
    assert_eq!(buy.commission, Decimal::from_i64(5));
    assert_eq!(buy.stamp_tax, Decimal::zero());
    let sell = trade_costs("SELL", Decimal::from_i64(10), 1000).unwrap();
    assert_eq!(sell.total_cost, Decimal::new(101, 1));
    assert_eq!(sell.stamp_tax, Decimal::from_i64(5));
    assert_eq!(sell.commission, Decimal::from_i64(5));
    let other = trade_costs("HOLD", Decimal::from_i64(10), 1000).unwrap();
    assert_eq!(other.amount, Decimal::from_i64(10000));
    assert_eq!(other.total_cost, Decimal::zero());
}

#[test]
fn trade_queries_number_their_parameters() {
    let code = StockCode::from_raw("600519").unwrap();
    let (sql, params) = trades_query(Some(&code), Some("sell"));
    assert!(sql.ends_with("WHERE 1=1 AND code = ?1 AND action = ?2 ORDER BY trade_date DESC, id DESC"));
    assert_eq!(params, vec!["sh600519".to_string(), "SELL".to_string()]);
    let (sql, params) = trades_query(None, Some("buy"));
    assert!(sql.ends_with("WHERE 1=1 AND action = ?1 ORDER BY trade_date DESC, id DESC"));
    assert_eq!(params, vec!["BUY".to_string()]);
    let (sql, params) = trades_query(None, None);
    assert!(sql.ends_with("WHERE 1=1 ORDER BY trade_date DESC, id DESC"));
    assert!(params.is_empty());
}

#[test]
fn bar_queries_and_rows() {
    assert!(bars_query(true, true).ends_with("WHERE code = ?1 AND date >= ?2 AND date <= ?3 ORDER BY date ASC"));
    assert!(bars_query(false, true).ends_with("WHERE code = ?1 AND date <= ?2 ORDER BY date ASC"));
    assert!(bars_query(false, false).ends_with("WHERE code = ?1 ORDER BY date ASC"));
    let fallback = StockCode::from_raw("000001").unwrap();
    let row = BarRow {
        code: "bad".into(),
        date: "2024-02-29".into(),
        open: "10.5".into(),
        high: "11".into(),
        low: "x".into(),
        close: "10.8".into(),
        volume: 99,
        turnover: "1000".into(),
    };
    let bar = bar_from_row(&row, &fallback).unwrap();
    assert_eq!(bar.code.for_api(), "sz000001");
    assert_eq!((bar.date.year, bar.date.month, bar.date.day), (2024, 2, 29));
    assert_eq!(bar.low, Decimal::zero());
    assert_eq!(bar.close, Decimal::new(108, 1));
    let bad_date = BarRow { date: "2023-02-29".into(), ..row };
    assert!(bar_from_row(&bad_date, &fallback).is_none());
}

#[test]
fn stored_ticks_and_flows_come_back_in_time_order() {
    let fallback = StockCode::from_raw("600519").unwrap();
    let tick = |t: &str| TickRow {
        tick_id: None,
        code: "sh600519".into(),
        trade_time: t.into(),
        price: "1.5".into(),
        volume: 100,
        direction: "buy".into(),
        source: "ths".into(),
    };
    let ticks = ticks_from_rows(&vec![tick("10:00:02"), tick("10:00:01")], &fallback);
    assert_eq!(ticks[0].trade_time, "10:00:01");
    assert_eq!(ticks[1].trade_time, "10:00:02");
    assert_eq!(ticks[0].price, Decimal::new(15, 1));
    let flow = |d: &str| FlowRow {
        code: "junk".into(),
        trade_date: d.into(),
        main_inflow: "1".into(),
        main_outflow: "2".into(),
        main_net: "-1".into(),
        retail_inflow: "".into(),
        retail_outflow: "0".into(),
        retail_net: "0".into(),
        source: "ths".into(),
    };
    let flows = flows_from_rows(&vec![flow("2025-01-03"), flow("2025-01-02")], &fallback);
    assert_eq!(flows[0].trade_date, "2025-01-02");
    assert_eq!(flows[0].code.for_api(), "sh600519");
    assert_eq!(flows[0].main_net, Decimal::from_i64(-1));
    assert_eq!(flows[0].retail_inflow, Decimal::zero());
    assert!(tick_query(true).ends_with("LIMIT ?2"));
    assert!(!tick_query(false).contains("LIMIT"));
}

#[test]
fn order_book_levels_take_five_and_pad_with_zero() {
    let prices = price_levels(&vec!["10.1".into(), "x".into(), "10.3".into()]);
    assert_eq!(prices[0], Decimal::new(101, 1));
    assert_eq!(prices[1], Decimal::zero());
    assert_eq!(prices[2], Decimal::new(103, 1));
    assert_eq!(prices[4], Decimal::zero());
    assert_eq!(volume_levels(&vec![1, 2, 3, 4, 5, 6, 7]), [1, 2, 3, 4, 5]);
    assert_eq!(volume_levels(&vec![9]), [9, 0, 0, 0, 0]);
}

#[test]
fn stored_records_read_back() {
    let p = position_from_row("sh600519".into(), "茅台".into(), 100, "1350.00");
    assert_eq!(p.avg_cost, Decimal::from_i64(1350));
    assert_eq!(p.current_price, Decimal::zero());
    let figures = TradeFigures {
        price: "10".into(),
        amount: "10000".into(),
        commission: "5".into(),
        stamp_tax: "0".into(),
        transfer_fee: "0.1".into(),
        total_cost: "oops".into(),
    };
    let t = trade_from_row(1, "sh600519".into(), "BUY".into(), 1000, &figures, "2025-12-01".into(), "".into());
    assert_eq!(t.transfer_fee, Decimal::new(1, 1));
    assert_eq!(t.total_cost, Decimal::zero());
    assert!(alert_rule_from_row(1, "sh600519".into(), "ma_cross".into(), "{}".into(), 1).enabled);
    assert!(!alert_rule_from_row(2, "sh600519".into(), "ma_cross".into(), "{}".into(), 0).enabled);
}

#[test]
fn stored_order_book_reads_back_its_levels() {
    let fallback = StockCode::from_raw("000001").unwrap();
    let ob = astock::store::order_book_from_row(
        &fallback,
        "sh600519",
        "10:31:05".to_string(),
        r#"["1372.99","1372.98"]"#,
        "[100,200,300,400,500,600]",
        "not json",
        r#"["x"]"#,
        "10jqka".to_string(),
    );
    assert_eq!(ob.code.for_api(), "sh600519");
    assert_eq!(ob.snap_time, "10:31:05");
    assert_eq!(ob.source, "10jqka");
    assert_eq!(ob.bid_prices[0], Decimal::new(137299, 2));
    assert_eq!(ob.bid_prices[1], Decimal::new(137298, 2));
    assert_eq!(ob.bid_prices[2], Decimal::zero());
    assert_eq!(ob.bid_volumes, [100, 200, 300, 400, 500]);
    assert!(ob.ask_prices.iter().all(|p| *p == Decimal::zero()));
    assert_eq!(ob.ask_volumes, [0, 0, 0, 0, 0]);
    let other = astock::store::order_book_from_row(
        &fallback, "bad", String::new(), "[]", "[]", "[]", "[]", String::new(),
    );
    assert_eq!(other.code.for_api(), "sz000001");
}

#[test]
fn bar_query_binds_every_bound_it_names() {
    let code = StockCode::from_raw("600519").unwrap();
    let (sql, params) = astock::store::bars_query_with_params(&code, Some("2024-01-01"), Some("2024-06-30"));
    assert!(sql.contains("date >= ?2") && sql.contains("date <= ?3"));
    assert_eq!(params, vec!["sh600519".to_string(), "2024-01-01".to_string(), "2024-06-30".to_string()]);
    let (sql, params) = astock::store::bars_query_with_params(&code, None, Some("2024-06-30"));
    assert!(sql.contains("date <= ?2") && !sql.contains("?3"));
    assert_eq!(params, vec!["sh600519".to_string(), "2024-06-30".to_string()]);
    let (_, params) = astock::store::bars_query_with_params(&code, None, None);
    assert_eq!(params, vec!["sh600519".to_string()]);
}
