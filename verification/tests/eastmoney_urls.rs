use astock::eastmoney::{
    build_block_trade_url, build_dragon_tiger_url, build_financial_url, build_industry_index_url,
    build_industry_quote_url, build_insider_trade_url, build_institution_hold_url, build_margin_url,
    build_money_flow_history_url, build_research_url, build_restricted_release_url, build_search_url, build_szse_margin_url, szse_margin_days_back,
    encode,
};
use astock::stock::StockCode;

#[test]
fn test_build_search_url() {
    let url = build_search_url("茅台", 5);
    assert!(url.contains("searchapi.eastmoney.com"));
    assert!(url.contains("%E8%8C%85%E5%8F%B0"));
}

#[test]
fn test_build_financial_url() {
    let code = StockCode::from_raw("600519").unwrap();
    let url = build_financial_url(&code);
    assert!(url.contains("600519"));
    assert!(url.contains("RPT_F10_FINANCE_MAINFINADATA"));
}

#[test]
fn test_build_margin_url() {
    let code = StockCode::from_raw("600519").unwrap();
    let url = build_margin_url(&code, 20);
    assert!(url.contains("600519"));
    assert!(url.contains("query.sse.com.cn"));

    let code_sz = StockCode::from_raw("000001").unwrap();
    let url_sz = build_margin_url(&code_sz, 20);
    assert!(url_sz.contains("000001"));
    assert!(url_sz.contains("szse.cn"));
}

#[test]
fn test_build_research_url() {
    let code = StockCode::from_raw("600519").unwrap();
    let url = build_research_url(&code, 10);
    assert!(url.contains("600519"));
    assert!(url.contains("reportapi.eastmoney.com"));
}

#[test]
fn test_build_dragon_tiger_url() {
    let code = StockCode::from_raw("000001").unwrap();
    let url = build_dragon_tiger_url(&code, 20);
    assert!(url.contains("000001"));
    assert!(url.contains("RPT_DAILYBILLBOARD_DETAILSNEW"));
}

#[test]
fn test_build_block_trade_url() {
    let code = StockCode::from_raw("600519").unwrap();
    let url = build_block_trade_url(&code, 20);
    assert!(url.contains("600519"));
    assert!(url.contains("RPT_DATA_BLOCKTRADE"));
}

#[test]
fn test_build_insider_trade_url() {
    let code = StockCode::from_raw("600519").unwrap();
    let url = build_insider_trade_url(&code, 20);
    assert!(url.contains("600519"));
    assert!(url.contains("RPT_SHARE_HOLDER_INCREASE"));
}

#[test]
fn test_build_money_flow_history_url() {
    let code = StockCode::from_raw("600519").unwrap();
    let url = build_money_flow_history_url(&code, 20);
    assert!(url.contains("1.600519"));
    assert!(url.contains("push2his.eastmoney.com"));
}

#[test]
fn encode_keeps_unreserved_bytes_and_escapes_the_rest() {
    assert_eq!(encode("Az09-_.~"), "Az09-_.~");
    assert_eq!(encode("a b&c"), "a%20b%26c");
    assert_eq!(encode("茅台"), "%E8%8C%85%E5%8F%B0");
    assert_eq!(encode(""), "");
}

#[test]
fn search_url_is_exact() {
    assert_eq!(
        build_search_url("mt", 10),
        "https://searchapi.eastmoney.com/api/suggest/get?input=mt&type=14&token=D43BF722C8E33BDC906FB84D85E326E8&count=10"
    );
}

#[test]
fn remaining_urls_carry_their_parameters() {
    let code = StockCode::from_raw("600519").unwrap();
    let release = build_restricted_release_url(&code, 15);
    assert!(release.contains("RPT_LIFT_STAGE") && release.contains("pageSize=15") && release.contains("600519"));
    let hold = build_institution_hold_url(&code, "2025-09-30", 30);
    assert_eq!(
        hold,
        "https://data.eastmoney.com/dataapi/zlsj/list?date=2025-09-30&type=1&zjc=0&sortField=HOULD_NUM&sortDirec=1&pageNum=1&pageSize=30&code=600519"
    );
    assert!(build_industry_index_url(50).contains("RPT_INDUSTRY_INDEX"));
    assert!(build_industry_quote_url(50).contains("pz=50"));
    let sz = StockCode::from_raw("000001").unwrap();
    assert!(build_money_flow_history_url(&sz, 5).contains("secid=0.000001"));
}

#[test]
fn szse_margin_url_carries_date_and_code() {
    let code = StockCode::from_raw("000001").unwrap();
    assert_eq!(
        build_szse_margin_url("2024-03-15", &code),
        "https://www.szse.cn/api/report/ShowReport/data?SHOWTYPE=JSON&CATALOGID=1837_xxpl&TABKEY=tab2&PAGENO=1&PAGECOUNT=5&txtDate=2024-03-15&txtZqdm=000001"
    );
}

#[test]
fn szse_margin_days_skip_the_weekend() {
    // Friday: the whole week back to Monday.
    assert_eq!(szse_margin_days_back(4), vec![0, 1, 2, 3, 4]);
    // Monday: today, then Friday to Wednesday of the week before.
    assert_eq!(szse_margin_days_back(0), vec![0, 3, 4]);
    // Sunday: Friday to Wednesday.
    assert_eq!(szse_margin_days_back(6), vec![2, 3, 4]);
    // Wednesday: Wednesday to Monday, skipping Sunday and Saturday.
    assert_eq!(szse_margin_days_back(2), vec![0, 1, 2]);
}
