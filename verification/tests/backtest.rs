use astock::decimal::Decimal;
use astock::engine::{calc_win_rate_pl_ratio, BacktestConfig, BacktestEngine, ScheduledSignals, Signal, Strategy};
use astock::models::{Bar, Date};
use astock::stock::StockCode;
use astock::strategies::{list_strategies, strategy_kind, StrategyKind};

fn bar(day: u32, open: i64, close: i64) -> Bar {
    Bar {
        code: StockCode::from_raw("600519").unwrap(),
        date: Date { year: 2024, month: 1, day },
        open: Decimal::from_i64(open),
        close: Decimal::from_i64(close),
        high: Decimal::from_i64(open.max(close)),
        low: Decimal::from_i64(open.min(close)),
        volume: 1000,
        turnover: Decimal::zero(),
    }
}

fn buy_then_sell() -> ScheduledSignals {
    ScheduledSignals { name: "buy_then_sell".to_string(), signals: vec![Signal::Buy, Signal::Hold, Signal::Sell] }
}

fn scenario() -> Vec<Bar> {
    vec![bar(2, 10, 10), bar(3, 10, 10), bar(4, 11, 11), bar(5, 11, 11)]
}

#[test]
fn signals_execute_at_the_next_open_with_slippage_and_costs() {
    let engine = BacktestEngine::new(BacktestConfig::default_config());
    let signals = [Signal::Buy, Signal::Hold, Signal::Sell];
    let r = engine.run_with_signals(&scenario(), &signals, "test").unwrap();
    assert_eq!(r.trade_count, 2);
    assert_eq!(r.trades[0].action, "BUY");
    assert_eq!(r.trades[0].price, Decimal::new(10010, 3));
    assert_eq!(r.trades[0].shares, 9900);
    assert_eq!(r.trades[0].cost, Decimal::new(3072069, 5));
    assert_eq!((r.trades[0].date.month, r.trades[0].date.day), (1, 3));
    assert_eq!(r.trades[1].action, "SELL");
    assert_eq!(r.trades[1].price, Decimal::new(10989, 3));
    assert_eq!(r.trades[1].shares, 9900);
    assert_eq!(r.final_capital, Decimal::new(109573258519, 6));
    assert_eq!(r.total_cost, Decimal::new(118841481, 6));
    assert_eq!(r.total_return_pct, Decimal::new(9573258519, 9));
    assert_eq!(r.win_rate, Decimal::from_i64(100));
    assert_eq!(r.profit_loss_ratio, Decimal::from_i64(99));
    assert!(r.max_drawdown_pct.gt(&Decimal::new(17, 2)) && r.max_drawdown_pct.lt(&Decimal::new(18, 2)));
}

#[test]
fn t_plus_one_forbids_selling_on_the_purchase_day() {
    let engine = BacktestEngine::new(BacktestConfig::default_config());
    // buy executes on day 3, the sale would execute on day 3 too: refused
    let bars = vec![bar(2, 10, 10), bar(3, 10, 10), bar(3, 11, 11)];
    let r = engine.run_with_signals(&bars, &[Signal::Buy, Signal::Sell], "t1").unwrap();
    assert_eq!(r.trade_count, 1);
    assert_eq!(r.trades[0].action, "BUY");
}

#[test]
fn too_few_bars_change_nothing() {
    let engine = BacktestEngine::new(BacktestConfig::default_config());
    let r = engine.run_with_signals(&[bar(2, 10, 10)], &[], "none").unwrap();
    assert_eq!(r.trade_count, 0);
    assert_eq!(r.final_capital, Decimal::from_i64(100000));
    assert_eq!(r.total_return_pct, Decimal::zero());
}

#[test]
fn a_strategy_drives_the_same_walk() {
    let engine = BacktestEngine::new(BacktestConfig::default_config());
    let r = engine.run(&scenario(), &buy_then_sell()).unwrap();
    assert_eq!(r.strategy_name, "buy_then_sell");
    assert_eq!(r.trade_count, 2);
    assert_eq!(r.final_capital, Decimal::new(109573258519, 6));
    let text = r.summary_text();
    assert!(text.starts_with("策略: buy_then_sell\n"));
    assert!(text.contains("交易次数:  2\n"));
}

#[test]
fn win_rate_and_ratio_of_round_trips() {
    let engine = BacktestEngine::new(BacktestConfig::default_config());
    let r = engine.run_with_signals(&scenario(), &[Signal::Buy, Signal::Hold, Signal::Sell], "x").unwrap();
    let (rate, ratio) = calc_win_rate_pl_ratio(&r.trades).unwrap();
    assert_eq!(rate, Decimal::from_i64(100));
    assert_eq!(ratio, Decimal::from_i64(99));
    let (rate, ratio) = calc_win_rate_pl_ratio(&[]).unwrap();
    assert_eq!((rate, ratio), (Decimal::zero(), Decimal::zero()));
}

#[test]
fn every_listed_strategy_can_be_made() {
    let list = list_strategies();
    assert_eq!(list.len(), 5);
    assert_eq!(list[0], ("dual_ma", "双均线交叉 (MA5/MA20)"));
    for (name, _) in &list {
        assert!(strategy_kind(name).is_some());
    }
    assert_eq!(strategy_kind("boll_break"), Some(StrategyKind::BollBreak));
    assert!(strategy_kind("unknown").is_none());
}

#[test]
fn a_schedule_holds_past_its_end() {
    let s = buy_then_sell();
    let bars = scenario();
    assert_eq!(s.name(), "buy_then_sell");
    assert_eq!(s.generate_signal(&bars, 0), Signal::Buy);
    assert_eq!(s.generate_signal(&bars, 2), Signal::Sell);
    assert_eq!(s.generate_signal(&bars, 3), Signal::Hold);
}

#[test]
fn a_single_bar_back_test_keeps_the_strategy_name() {
    let engine = BacktestEngine::new(BacktestConfig::default_config());
    let r = engine.run(&[bar(2, 10, 10)], &buy_then_sell()).unwrap();
    assert_eq!(r.strategy_name, "buy_then_sell");
    assert_eq!(r.trade_count, 0);
    assert_eq!(r.final_capital, Decimal::from_i64(100000));
}
