use astock::decimal::Decimal;
use astock::receiver::{
    bars_from_entries, money_flow_from_data, order_book_from_data, pushed_price_alert, quote_from_data,
    rule_is_for, saved_response, status_response, ticks_from_entries, watchlist_entries, ApiResponse, KlineEntry,
    MoneyFlowData, OrderBookData, QuoteData, TickEntry,
};
use astock::store::WatchItem;

fn quote_data(code: &str) -> QuoteData {
    QuoteData {
        code: code.into(),
        name: Some("平安银行".into()),
        price: "11.25".into(),
        prev_close: Some("11.00".into()),
        open: None,
        high: Some("bad".into()),
        low: None,
        volume: Some(123400),
        turnover: None,
        bid: None,
        ask: None,
        bid_vol: Some(5),
        ask_vol: None,
        change: Some("0.25".into()),
        change_pct: Some("2.27".into()),
        high_limit: Some("12.10".into()),
        low_limit: Some("n/a".into()),
        inner_vol: None,
        outer_vol: Some(7),
        open_vol: None,
        time: None,
        update_time: Some("2025-01-02 10:00:00".into()),
        stock_status: None,
    }
}

#[test]
fn responses_say_ok_or_error() {
    let ok = ApiResponse::ok();
    assert_eq!(ok.status, "ok");
    assert!(ok.message.is_none());
    let err = ApiResponse::error("无效股票代码");
    assert_eq!(err.status, "error");
    assert_eq!(err.message.as_deref(), Some("无效股票代码"));
    assert_eq!(saved_response(3, "条K线").message.as_deref(), Some("保存3条K线"));
    let st = status_response(42);
    assert_eq!((st.status.as_str(), st.version.as_str(), st.uptime_secs), ("ok", "0.1.0", 42));
}

#[test]
fn pushed_quotes_read_their_figures() {
    let q = quote_from_data(&quote_data("000001")).unwrap();
    assert_eq!(q.code.for_api(), "sz000001");
    assert_eq!(q.price, Decimal::new(1125, 2));
    assert_eq!(q.prev_close, Decimal::from_i64(11));
    assert_eq!(q.open, Decimal::zero());
    assert_eq!(q.high, Decimal::zero());
    assert_eq!(q.volume, 123400);
    assert_eq!(q.high_limit, Some(Decimal::new(121, 1)));
    assert_eq!(q.low_limit, None);
    assert_eq!(q.bid_vol, Some(5));
    assert_eq!(q.time, "");
    assert_eq!(q.update_time.as_deref(), Some("2025-01-02 10:00:00"));
    assert!(quote_from_data(&quote_data("99")).is_none());
    assert!(rule_is_for("sz000001", &q) && !rule_is_for("000001", &q));
    assert_eq!(pushed_price_alert(&q, true, "11"), "000001.SZ 平安银行 突破价格11");
    assert_eq!(pushed_price_alert(&q, false, "10.5"), "000001.SZ 平安银行 跌破价格10.5");
}

#[test]
fn pushed_bars_and_ticks_drop_invalid_entries() {
    let entry = |code: &str, date: &str| KlineEntry {
        code: code.into(),
        date: date.into(),
        open: "1".into(),
        close: "2".into(),
        high: "3".into(),
        low: "0.5".into(),
        volume: None,
        turnover: None,
    };
    let bars = bars_from_entries(&vec![entry("600519", "2025-01-02"), entry("bad", "2025-01-02"), entry("600519", "02/01/2025")]);
    assert_eq!(bars.len(), 1);
    assert_eq!(bars[0].close, Decimal::from_i64(2));
    assert_eq!(bars[0].volume, 0);
    assert_eq!(bars[0].turnover, Decimal::zero());
    let tick = |code: &str, dir: Option<&str>| TickEntry {
        id: None,
        code: code.into(),
        trade_time: "09:31:00".into(),
        price: "10".into(),
        volume: 300,
        direction: dir.map(|d| d.to_string()),
    };
    let ticks = ticks_from_entries(&vec![tick("600519", None), tick("x", Some("buy")), tick("000001", Some("sell"))], "ths");
    assert_eq!(ticks.len(), 2);
    assert_eq!(ticks[0].direction, "neutral");
    assert_eq!(ticks[1].direction, "sell");
    assert_eq!(ticks[1].source, "ths");
}

#[test]
fn pushed_books_and_flows_need_a_valid_code() {
    let book = OrderBookData {
        code: "600519".into(),
        snap_time: "10:00:00".into(),
        bid_prices: vec!["1".into(), "2".into()],
        bid_volumes: vec![100],
        ask_prices: vec![],
        ask_volumes: vec![1, 2, 3, 4, 5, 6],
    };
    let ob = order_book_from_data(&book, "ths").unwrap();
    assert_eq!(ob.bid_prices[1], Decimal::from_i64(2));
    assert_eq!(ob.bid_volumes, [100, 0, 0, 0, 0]);
    assert_eq!(ob.ask_volumes, [1, 2, 3, 4, 5]);
    assert!(order_book_from_data(&OrderBookData { code: "x".into(), ..book }, "ths").is_none());
    let flow = MoneyFlowData {
        code: "000001".into(),
        trade_date: "2025-01-02".into(),
        main_inflow: "1".into(),
        main_outflow: "2".into(),
        main_net: "-1".into(),
        retail_inflow: "x".into(),
        retail_outflow: "0".into(),
        retail_net: "0".into(),
    };
    let f = money_flow_from_data(&flow, "ths").unwrap();
    assert_eq!(f.main_net, Decimal::from_i64(-1));
    assert_eq!(f.retail_inflow, Decimal::zero());
    assert!(money_flow_from_data(&MoneyFlowData { code: "".into(), ..flow }, "ths").is_none());
    let list = watchlist_entries(&vec![WatchItem { code: "sh600519".into(), name: "茅台".into() }]);
    assert_eq!((list[0].code.as_str(), list[0].name.as_str()), ("sh600519", "茅台"));
}
