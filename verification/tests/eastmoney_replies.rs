use astock::decimal::Decimal;
use astock::eastmoney::{
    fill_trade_dates, format_sse_date, parse_block_trade_response, parse_dragon_tiger_response,
    parse_insider_trade_response, parse_institution_hold_response, parse_margin_sse_response,
    parse_margin_szse_response, parse_money_flow_history_response, parse_restricted_release_response,
    parse_search_response,
};
use astock::error::AstockError;
use astock::json::{JsonNumber, JsonValue};
use astock::stock::StockCode;

fn s(t: &str) -> JsonValue {
    JsonValue::Str(t.to_string())
}

fn num(text: &str, d: Option<Decimal>, i: Option<i64>) -> JsonValue {
    JsonValue::Number(JsonNumber { text: text.to_string(), int_value: i, decimal_value: d })
}

fn obj(members: Vec<(&str, JsonValue)>) -> JsonValue {
    JsonValue::Object(members.into_iter().map(|(k, v)| (k.to_string(), v)).collect())
}

fn arr(items: Vec<JsonValue>) -> JsonValue {
    JsonValue::Array(items)
}

fn hit(code: &str, name: &str, kind: &str) -> JsonValue {
    obj(vec![("Code", s(code)), ("Name", s(name)), ("PinYin", s("GZMT")), ("SecurityTypeName", s(kind)), ("MktNum", s("1"))])
}

#[test]
fn search_keeps_a_shares_in_order() {
    let resp = obj(vec![("QuotationCodeTable", obj(vec![("Data", arr(vec![
        hit("600519", "贵州茅台", "沪A"),
        hit("00700", "腾讯控股", "港股"),
        hit("000001", "平安银行", "深A"),
    ]))]))]);
    let hits = parse_search_response(&resp).unwrap();
    assert_eq!(hits.len(), 2);
    assert_eq!(hits[0].code, "600519");
    assert_eq!(hits[0].market, "沪A");
    assert_eq!(hits[1].name, "平安银行");
    assert_eq!(hits[1].pinyin, "GZMT");
}

#[test]
fn search_without_data_is_empty_and_bad_shapes_fail() {
    let empty = obj(vec![("QuotationCodeTable", obj(vec![("Data", JsonValue::Null)]))]);
    assert_eq!(parse_search_response(&empty).unwrap().len(), 0);
    let missing = obj(vec![("QuotationCodeTable", obj(vec![]))]);
    assert_eq!(parse_search_response(&missing).unwrap().len(), 0);
    let no_table = obj(vec![]);
    assert!(matches!(parse_search_response(&no_table), Err(AstockError::ParseError(_))));
    let bad_item = obj(vec![("QuotationCodeTable", obj(vec![("Data", arr(vec![obj(vec![("Code", s("600519"))])]))]))]);
    assert!(matches!(parse_search_response(&bad_item), Err(AstockError::ParseError(_))));
    let as_arrays = arr(vec![arr(vec![arr(vec![arr(vec![s("1"), s("n"), s("p"), s("A股"), s("0")])])])]);
    assert_eq!(parse_search_response(&as_arrays).unwrap().len(), 1);
}

#[test]
fn sse_dates_are_cut_by_bytes() {
    assert_eq!(format_sse_date("20250102").unwrap(), "2025-01-02");
    assert_eq!(format_sse_date("2025-01-02").unwrap(), "2025-01-02");
    assert_eq!(format_sse_date("").unwrap(), "");
    // 3 + 3 + 2 bytes: byte 4 falls inside the second character
    assert!(format_sse_date("中中ab").is_none());
    // 2 + 2 + 2 + 2 bytes: cuts at characters 2 and 3
    assert_eq!(format_sse_date("ééééé").unwrap(), "ééééé");
    assert_eq!(format_sse_date("éééé").unwrap(), "éé-é-é");
}

#[test]
fn sse_margin_keeps_the_stock_and_reformats_dates() {
    let code = StockCode::from_raw("600519").unwrap();
    let row = |c: &str, d: JsonValue| obj(vec![
        ("stockCode", s(c)),
        ("opDate", d),
        ("rzye", num("1.5", Some(Decimal::new(15, 1)), None)),
        ("rzmre", s("2")),
        ("rqmcl", num("7", Some(Decimal::from_i64(7)), Some(7))),
    ]);
    let resp = obj(vec![("pageHelp", obj(vec![("data", arr(vec![
        row("600519", s("20250102")),
        row("000001", s("20250102")),
        row("600519", JsonValue::Null),
    ]))]))]);
    let rows = parse_margin_sse_response(&resp, &code).unwrap().unwrap();
    assert_eq!(rows.len(), 1);
    assert_eq!(rows[0].trade_date, "2025-01-02");
    assert_eq!(rows[0].fin_balance, Decimal::new(15, 1));
    assert_eq!(rows[0].fin_buy_amt, Decimal::zero());
    assert_eq!(rows[0].loan_balance, Decimal::zero());
    assert_eq!(rows[0].loan_sell_vol, Decimal::from_i64(7));
    match parse_margin_sse_response(&obj(vec![]), &code) {
        Some(Err(AstockError::ParseError(m))) => assert_eq!(m, "融资融券数据格式错误"),
        _ => panic!("expected a parse error"),
    }
}

#[test]
fn szse_margin_scales_hundred_millions_and_dates_fill_in() {
    let code = StockCode::from_raw("000001").unwrap();
    let item = obj(vec![
        ("jrrzye", s("1,234.5")),
        ("jrrzmr", num("0.5", Some(Decimal::new(5, 1)), None)),
        ("jrrjye", s("n/a")),
    ]);
    let resp = arr(vec![obj(vec![("data", arr(vec![item]))])]);
    let mut rows = parse_margin_szse_response(&resp, &code).unwrap().unwrap();
    assert_eq!(rows.len(), 1);
    assert_eq!(rows[0].fin_balance, Decimal::from_i64(123450000000));
    assert_eq!(rows[0].fin_buy_amt, Decimal::from_i64(50000000));
    assert_eq!(rows[0].loan_balance, Decimal::zero());
    assert_eq!(rows[0].trade_date, "");
    fill_trade_dates(&mut rows, "2025-01-03");
    assert_eq!(rows[0].trade_date, "2025-01-03");
    assert!(matches!(parse_margin_szse_response(&arr(vec![]), &code), Some(Err(AstockError::ParseError(_)))));
}

#[test]
fn board_entries_read_every_field() {
    let item = obj(vec![
        ("SECURITY_CODE", s("000001")),
        ("SECURITY_NAME_ABBR", s("平安银行")),
        ("TRADE_DATE", s("2025-01-02 00:00:00")),
        ("CLOSE_PRICE", num("11.2", Some(Decimal::new(112, 1)), None)),
        ("EXPLANATION", s("日涨幅偏离值达7%")),
        ("BILLBOARD_NET_AMT", num("-5", Some(Decimal::from_i64(-5)), Some(-5))),
    ]);
    let resp = obj(vec![("result", obj(vec![("data", arr(vec![item]))]))]);
    let entries = parse_dragon_tiger_response(&resp).unwrap();
    assert_eq!(entries.len(), 1);
    assert_eq!(entries[0].code, "000001");
    assert_eq!(entries[0].explanation, "日涨幅偏离值达7%");
    assert_eq!(entries[0].close_price, Decimal::new(112, 1));
    assert_eq!(entries[0].net_buy_amt, Decimal::from_i64(-5));
    assert_eq!(entries[0].buy_amt, Decimal::zero());
    match parse_dragon_tiger_response(&obj(vec![("result", JsonValue::Null)])) {
        Err(AstockError::ParseError(m)) => assert_eq!(m, "龙虎榜数据格式错误"),
        _ => panic!("expected a parse error"),
    }
}

#[test]
fn explain_wins_over_explanation_even_when_not_text() {
    let item = obj(vec![("EXPLAIN", num("1", Some(Decimal::one()), Some(1))), ("EXPLANATION", s("x"))]);
    let resp = obj(vec![("result", obj(vec![("data", arr(vec![item]))]))]);
    assert_eq!(parse_dragon_tiger_response(&resp).unwrap()[0].explanation, "");
}

#[test]
fn block_trades_and_insider_trades_keep_optional_ratios() {
    let item = obj(vec![
        ("SECURITY_CODE", s("600519")),
        ("DEAL_PRICE", num("1300", Some(Decimal::from_i64(1300)), Some(1300))),
        ("PREMIUM_RATIO", num("-3.5", Some(Decimal::new(-35, 1)), None)),
        ("CHANGE_RATE", s("not a number")),
    ]);
    let resp = obj(vec![("result", obj(vec![("data", arr(vec![item]))]))]);
    let trades = parse_block_trade_response(&resp).unwrap();
    assert_eq!(trades[0].premium_ratio, Some(Decimal::new(-35, 1)));
    assert_eq!(trades[0].deal_price, Decimal::from_i64(1300));
    let insiders = parse_insider_trade_response(&resp).unwrap();
    assert_eq!(insiders[0].change_rate, None);
    assert_eq!(insiders[0].code, "600519");
    assert!(matches!(parse_block_trade_response(&obj(vec![])), Err(AstockError::ParseError(_))));
    assert!(matches!(parse_insider_trade_response(&obj(vec![])), Err(AstockError::ParseError(_))));
}

#[test]
fn releases_without_result_are_empty() {
    assert_eq!(parse_restricted_release_response(&obj(vec![])).unwrap().len(), 0);
    assert_eq!(parse_restricted_release_response(&obj(vec![("result", JsonValue::Null)])).unwrap().len(), 0);
    match parse_restricted_release_response(&obj(vec![("result", obj(vec![]))])) {
        Err(AstockError::ParseError(m)) => assert_eq!(m, "解禁数据格式错误"),
        _ => panic!("expected a parse error"),
    }
    let item = obj(vec![("FREE_DATE", s("2025-06-30")), ("CURRENT_FREE_SHARES", num("100", Some(Decimal::from_i64(100)), Some(100)))]);
    let resp = obj(vec![("result", obj(vec![("data", arr(vec![item]))]))]);
    let rel = parse_restricted_release_response(&resp).unwrap();
    assert_eq!(rel[0].free_date, "2025-06-30");
    assert_eq!(rel[0].free_shares, Decimal::from_i64(100));
}

#[test]
fn holdings_need_a_code_and_cut_counts_to_32_bits() {
    let with_code = obj(vec![("SECURITY_CODE", s("600519")), ("HOULD_NUM", num("4294967297", Some(Decimal::from_i64(4294967297)), Some(4294967297)))]);
    let without = obj(vec![("HOULD_NUM", num("3", Some(Decimal::from_i64(3)), Some(3)))]);
    let resp = obj(vec![("data", arr(vec![without, with_code]))]);
    let holds = parse_institution_hold_response(&resp).unwrap();
    assert_eq!(holds.len(), 1);
    assert_eq!(holds[0].hold_num, 1);
    assert!(matches!(parse_institution_hold_response(&obj(vec![])), Err(AstockError::ParseError(_))));
}

#[test]
fn money_flow_lines_need_five_readable_fields() {
    let resp = obj(vec![("data", obj(vec![("klines", arr(vec![
        s("2025-01-02,-1.5,2,3,4,5"),
        s("2025-01-03,1,2,3"),
        s("2025-01-04,x,2,3,4"),
        num("1", None, Some(1)),
    ]))]))]);
    let days = parse_money_flow_history_response(&resp).unwrap();
    assert_eq!(days.len(), 1);
    assert_eq!(days[0].date, "2025-01-02");
    assert_eq!(days[0].main_net_inflow, Decimal::new(-15, 1));
    assert_eq!(days[0].large_net_inflow, Decimal::from_i64(4));
    match parse_money_flow_history_response(&obj(vec![("data", arr(vec![]))])) {
        Err(AstockError::ParseError(m)) => assert_eq!(m, "资金流数据格式错误"),
        _ => panic!("expected a parse error"),
    }
    match parse_money_flow_history_response(&obj(vec![("data", obj(vec![]))])) {
        Err(AstockError::ParseError(m)) => assert_eq!(m, "资金流klines格式错误"),
        _ => panic!("expected a parse error"),
    }
}
