use astock::decimal::Decimal;
use astock::json::{JsonNumber, JsonValue};
use astock::kline::{
    build_daily_kline_url, build_minute_kline_url, kline_url, parse_kline_data, read_kline_reply, KlineType,
    TencentKlineResponse,
};
use astock::error::AstockError;
use astock::stock::StockCode;

#[test]
fn test_kline_type_parsing() {
    assert!(matches!(KlineType::from_str_opt("day"), Some(KlineType::Day)));
    assert!(matches!(KlineType::from_str_opt("m5"), Some(KlineType::Min5)));
    assert!(matches!(KlineType::from_str_opt("week"), Some(KlineType::Week)));
    assert!(KlineType::from_str_opt("invalid").is_none());
}

#[test]
fn test_build_daily_url() {
    let code = StockCode::from_raw("600519").unwrap();
    let url = build_daily_kline_url(&code, &KlineType::Day, Some("2024-01-01"), None, Some(120), true);
    assert!(url.contains("sh600519"));
    assert!(url.contains("day"));
    assert!(url.contains("qfq"));
}

#[test]
fn test_build_minute_url() {
    let code = StockCode::from_raw("600519").unwrap();
    let url = build_minute_kline_url(&code, &KlineType::Min5, Some(10));
    assert!(url.contains("sh600519"));
    assert!(url.contains("m5"));
}

#[test]
fn urls_are_exact() {
    let code = StockCode::from_raw("600519").unwrap();
    assert_eq!(
        build_daily_kline_url(&code, &KlineType::Week, None, Some("2025-12-01"), None, false),
        "https://ifzq.gtimg.cn/appstock/app/fqkline/get?param=sh600519,week,,2025-12-01,,"
    );
    assert_eq!(
        kline_url(&code, &KlineType::Min30, None, None, Some(30), true),
        "https://ifzq.gtimg.cn/appstock/app/kline/mkline?param=sh600519,m30,,30"
    );
    assert_eq!(
        kline_url(&code, &KlineType::Day, Some("2024-01-01"), None, Some(120), true),
        "https://ifzq.gtimg.cn/appstock/app/fqkline/get?param=sh600519,day,2024-01-01,,120,qfq"
    );
}

#[test]
fn every_period_reads_back_and_minutes_are_minutes() {
    for k in [KlineType::Day, KlineType::Week, KlineType::Month, KlineType::Min5, KlineType::Min15, KlineType::Min30, KlineType::Min60] {
        assert_eq!(KlineType::from_str_opt(k.to_period()), Some(k));
    }
    assert!(KlineType::Min60.is_minute() && !KlineType::Month.is_minute());
    assert_eq!(KlineType::from_str_opt("monthly"), Some(KlineType::Month));
    assert_eq!(KlineType::from_str_opt("15"), Some(KlineType::Min15));
}

fn s(t: &str) -> JsonValue {
    JsonValue::Str(t.to_string())
}

fn num_int(n: i64) -> JsonValue {
    JsonValue::Number(JsonNumber { text: n.to_string(), int_value: Some(n), decimal_value: Some(Decimal::from_i64(n)) })
}

fn obj(members: Vec<(&str, JsonValue)>) -> JsonValue {
    JsonValue::Object(members.into_iter().map(|(k, v)| (k.to_string(), v)).collect())
}

fn reply(key: &str, rows: Vec<JsonValue>) -> TencentKlineResponse {
    TencentKlineResponse {
        code: 0,
        msg: None,
        data: obj(vec![("sh600519", obj(vec![(key, JsonValue::Array(rows))]))]),
    }
}

#[test]
fn bars_read_close_before_high() {
    let code = StockCode::from_raw("600519").unwrap();
    let row = JsonValue::Array(vec![s("2024-01-02"), s("1700.00"), s("1685.01"), s("1710.50"), s("1680.00"), s("31234.000")]);
    let resp = reply("qfqday", vec![row]);
    let bars = parse_kline_data(&resp, &code, &KlineType::Day, true).unwrap().unwrap();
    assert_eq!(bars.len(), 1);
    let b = &bars[0];
    assert_eq!((b.date.year, b.date.month, b.date.day), (2024, 1, 2));
    assert_eq!(b.open, Decimal::new(170000, 2));
    assert_eq!(b.close, Decimal::new(168501, 2));
    assert_eq!(b.high, Decimal::new(171050, 2));
    assert_eq!(b.low, Decimal::new(168000, 2));
    // "31234.000" is no i64
    assert_eq!(b.volume, 0);
    assert_eq!(b.turnover, Decimal::zero());
}

#[test]
fn minute_bars_take_the_first_eight_bytes_as_date() {
    let code = StockCode::from_raw("600519").unwrap();
    let row = JsonValue::Array(vec![s("202401021500"), num_int(10), num_int(11), num_int(12), num_int(9), num_int(500)]);
    let short = JsonValue::Array(vec![s("20240103"), num_int(1)]);
    let undated = JsonValue::Array(vec![s("1500"), num_int(10), num_int(11), num_int(12), num_int(9), num_int(500)]);
    let resp = reply("m5", vec![row, short, undated]);
    let bars = parse_kline_data(&resp, &code, &KlineType::Min5, true).unwrap().unwrap();
    assert_eq!(bars.len(), 1);
    assert_eq!((bars[0].date.year, bars[0].date.month, bars[0].date.day), (2024, 1, 2));
    assert_eq!(bars[0].close, Decimal::from_i64(11));
    assert_eq!(bars[0].volume, 500);
}

#[test]
fn reply_errors_name_what_is_missing() {
    let code = StockCode::from_raw("600519").unwrap();
    let resp = reply("day", vec![]);
    match parse_kline_data(&resp, &code, &KlineType::Day, true) {
        Some(Err(AstockError::ParseError(m))) => assert_eq!(m, "响应中找不到K线数据字段: qfqday"),
        other => panic!("unexpected {:?}", other),
    }
    let other = StockCode::from_raw("000001").unwrap();
    match parse_kline_data(&resp, &other, &KlineType::Day, false) {
        Some(Err(AstockError::ParseError(m))) => assert_eq!(m, "响应中找不到股票数据"),
        r => panic!("unexpected {:?}", r),
    }
    let not_rows = reply("day", vec![s("oops")]);
    match parse_kline_data(&not_rows, &code, &KlineType::Day, false) {
        Some(Err(AstockError::ParseError(m))) => assert_eq!(m, "K线条目不是数组"),
        r => panic!("unexpected {:?}", r),
    }
    let failed = TencentKlineResponse { code: -1, msg: None, data: JsonValue::Null };
    match read_kline_reply(&failed, &code, &KlineType::Day, true) {
        Some(Err(AstockError::ApiError(m))) => assert_eq!(m, "未知错误"),
        r => panic!("unexpected {:?}", r),
    }
}
