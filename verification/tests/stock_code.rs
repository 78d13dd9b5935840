use astock::stock::StockCode;

#[test]
fn test_from_raw_pure_number() {
    assert_eq!(StockCode::from_raw("600519").unwrap().for_api(), "sh600519");
    assert_eq!(StockCode::from_raw("000001").unwrap().for_api(), "sz000001");
    assert_eq!(StockCode::from_raw("300750").unwrap().for_api(), "sz300750");
    assert_eq!(StockCode::from_raw("830799").unwrap().for_api(), "bj830799");
}

#[test]
fn test_from_raw_with_prefix() {
    assert_eq!(StockCode::from_raw("sh600519").unwrap().for_api(), "sh600519");
    assert_eq!(StockCode::from_raw("SZ000001").unwrap().for_api(), "sz000001");
}

#[test]
fn test_from_raw_wind_format() {
    assert_eq!(StockCode::from_raw("600519.SH").unwrap().for_api(), "sh600519");
    assert_eq!(StockCode::from_raw("000001.SZ").unwrap().for_api(), "sz000001");
}

#[test]
fn test_invalid_code() {
    assert!(StockCode::from_raw("12345").is_err());
    assert!(StockCode::from_raw("abcdef").is_err());
    assert!(StockCode::from_raw("").is_err());
}

#[test]
fn test_display_formats() {
    let code = StockCode::from_raw("600519").unwrap();
    assert_eq!(code.display_wind(), "600519.SH");
    assert_eq!(code.for_eastmoney(), "1.600519");
    assert_eq!(code.to_display(), "sh600519");
}

#[test]
fn from_raw_trims_and_reports_the_normalized_text() {
    let code = StockCode::from_raw("  bj830799 ").unwrap();
    assert_eq!(code.prefix(), "bj");
    assert_eq!(code.code(), "830799");
    match StockCode::from_raw("600519.SH.SZ") {
        Err(e) => assert_eq!(e.message(), "无效的股票代码: 600519.SH.SZ"),
        Ok(_) => panic!("two dots must be refused"),
    }
    match StockCode::from_raw("912345") {
        Err(e) => assert_eq!(e.message(), "无效的股票代码: 912345"),
        Ok(_) => panic!("no market starts with 9"),
    }
}

#[test]
fn api_and_wind_texts_read_back() {
    for raw in ["600519", "000001", "300750", "830799", "430047"] {
        let code = StockCode::from_raw(raw).unwrap();
        let again = StockCode::from_raw(&code.for_api()).unwrap();
        assert_eq!(again.for_api(), code.for_api());
        let wind = StockCode::from_raw(&code.display_wind()).unwrap();
        assert_eq!(wind.for_api(), code.for_api());
    }
}

#[test]
fn market_follows_the_first_digit() {
    assert_eq!(StockCode::from_raw("688981").unwrap().prefix(), "sh");
    assert_eq!(StockCode::from_raw("300750").unwrap().prefix(), "sz");
    assert_eq!(StockCode::from_raw("430047").unwrap().prefix(), "bj");
    assert_eq!(StockCode::from_raw("000001").unwrap().for_eastmoney(), "0.000001");
}
