use astock::cli::parse_code_list;
use astock::decimal::Decimal;
use astock::models::Quote;
use astock::portfolio::{check_trade, fill_current_prices, portfolio_totals, position_value, TradeCheck};
use astock::stock::StockCode;
use astock::store::position_from_row;

#[test]
fn code_lists_keep_valid_codes_in_order() {
    let codes = parse_code_list("600519, 000001 ,bad,,300750");
    let texts: Vec<String> = codes.iter().map(|c| c.for_api()).collect();
    assert_eq!(texts, vec!["sh600519", "sz000001", "sz300750"]);
    assert!(parse_code_list("").is_empty());
}

#[test]
fn trades_entered_by_hand_are_checked() {
    match check_trade("1350.00", "buy", 100) {
        TradeCheck::Accepted { price, action } => {
            assert_eq!(price, Decimal::from_i64(1350));
            assert_eq!(action, "BUY");
        }
        other => panic!("unexpected {:?}", other),
    }
    assert!(matches!(check_trade("abc", "buy", 100), TradeCheck::BadPrice));
    assert!(matches!(check_trade("10", "hold", 100), TradeCheck::BadAction));
    assert!(matches!(check_trade("10", "Sell", 150), TradeCheck::OddLot));
    assert!(matches!(check_trade("10", "sell", -200), TradeCheck::Accepted { .. }));
}

fn quote(code: &str, price: i64) -> Quote {
    Quote {
        code: StockCode::from_raw(code).unwrap(),
        name: String::new(),
        price: Decimal::from_i64(price),
        prev_close: Decimal::zero(),
        open: Decimal::zero(),
        high: Decimal::zero(),
        low: Decimal::zero(),
        volume: 0,
        turnover: Decimal::zero(),
        bid: Decimal::zero(),
        ask: Decimal::zero(),
        bid_vol: None,
        ask_vol: None,
        change: Decimal::zero(),
        change_pct: Decimal::zero(),
        high_limit: None,
        low_limit: None,
        inner_vol: None,
        outer_vol: None,
        open_vol: None,
        time: String::new(),
        update_time: None,
        stock_status: None,
    }
}

#[test]
fn positions_take_the_first_matching_quote() {
    let mut positions = vec![
        position_from_row("sh600519".into(), "".into(), 100, "1350"),
        position_from_row("sz000001".into(), "".into(), 200, "10"),
    ];
    let quotes = vec![quote("600519", 1372), quote("600519", 1), quote("300750", 5)];
    fill_current_prices(&mut positions, &quotes);
    assert_eq!(positions[0].current_price, Decimal::from_i64(1372));
    assert_eq!(positions[1].current_price, Decimal::zero());
    assert_eq!(positions[1].shares, 200);
}

#[test]
fn profit_as_in_the_readme() {
    let v = position_value(&Decimal::new(137299, 2), &Decimal::from_i64(1350), 100).unwrap();
    assert_eq!(v.market_value, Decimal::from_i64(137299));
    assert_eq!(v.cost_value, Decimal::from_i64(135000));
    assert_eq!(v.profit, Decimal::from_i64(2299));
    assert_eq!(astock::decimal::format_2dp(&v.profit_pct), "1.70");
    let free = position_value(&Decimal::from_i64(5), &Decimal::zero(), 100).unwrap();
    assert_eq!(free.profit_pct, Decimal::zero());
    let totals = portfolio_totals(&vec![v, free]).unwrap();
    assert_eq!(totals.market_value, Decimal::from_i64(137799));
    assert_eq!(totals.cost_value, Decimal::from_i64(135000));
    assert_eq!(totals.profit, Decimal::from_i64(2799));
    let none = portfolio_totals(&vec![]).unwrap();
    assert_eq!(none.profit_pct, Decimal::zero());
}
