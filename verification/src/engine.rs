//! The back-testing engine: a walk over historical bars.
//!
//! 1. The bars are visited in order.
//! 2. After each bar the strategy gives a signal (buy, sell or hold).
//! 3. A signal is executed at the open of the next bar, with slippage.
//! 4. T+1: shares bought on a day can be sold on a later day only.
//! 5. Every trade pays the costs of the cost model.
use vstd::prelude::*;
use crate::costs::{buy_cost_of, calc_buy_cost, calc_sell_cost, lot_of, round_lot, sell_cost_of};
use crate::decimal::{
    lemma_pow10_positive,
    Decimal, decimal_add_result, decimal_div_result, decimal_mul_result, decimal_sub_result,
    decimal_format_2dp, format_2dp, opt_view, pow10, trunc, value_le, value_lt,
};
use crate::models::{Bar, BarModel, Date, bars_view, date_after};
use crate::text::{decimal_digits, push_decimal, push_str, same_text};

verus! {

/// A trading signal.
#[derive(Debug, Clone, Copy, PartialEq, Eq)]
pub enum Signal {
    Buy,
    Sell,
    Hold,
}

/// A back-testing strategy: gives the signal for a bar from the bars up to it.
///
/// `generate_signal(bars, index)` may read `bars[..=index]` only: it must not
/// look ahead. Its contract says so: the signal is a function of that prefix.
pub trait Strategy {
    /// The signal the strategy gives after the last of the given bars, which
    /// stands at `index`.
    spec fn signal_spec(&self, bars: Seq<BarModel>, index: int) -> Signal;

    /// The name of the strategy.
    spec fn name_spec(&self) -> Seq<char>;

    /// The name of the strategy.
    fn name(&self) -> (r: String)
        ensures
            r@ == self.name_spec(),
    ;

    /// The signal after bar `index`.
    fn generate_signal(&self, bars: &[Bar], index: usize) -> (r: Signal)
        requires
            index < bars@.len(),
        ensures
            r == self.signal_spec(bars_view(bars@.subrange(0, index + 1)), index as int),
    ;
}

/// The signals a strategy gives over a series: one after each bar but the
/// last, each from the bars up to it.
pub open spec fn strategy_signals<S: Strategy>(strategy: &S, bars: Seq<Bar>) -> Seq<Signal> {
    Seq::new(
        if bars.len() == 0 {
            0
        } else {
            (bars.len() - 1) as nat
        },
        |i: int| strategy.signal_spec(bars_view(bars.subrange(0, i + 1)), i),
    )
}

/// A strategy that gives signals fixed in advance: `signals[i]` after bar `i`,
/// and `Hold` past the end of the list. Signals worked out elsewhere, or a
/// plan written by hand, run through the engine this way.
#[derive(Debug, Clone)]
pub struct ScheduledSignals {
    pub name: String,
    pub signals: Vec<Signal>,
}

/// The signal a schedule gives after bar `index`.
pub open spec fn scheduled_at(signals: Seq<Signal>, index: int) -> Signal {
    if 0 <= index < signals.len() {
        signals[index]
    } else {
        Signal::Hold
    }
}

impl Strategy for ScheduledSignals {
    open spec fn signal_spec(&self, bars: Seq<BarModel>, index: int) -> Signal {
        scheduled_at(self.signals@, index)
    }

    open spec fn name_spec(&self) -> Seq<char> {
        self.name@
    }

    fn name(&self) -> (r: String) {
        self.name.clone()
    }

    fn generate_signal(&self, bars: &[Bar], index: usize) -> (r: Signal) {
        if index < self.signals.len() {
            self.signals[index]
        } else {
            Signal::Hold
        }
    }
}

/// Back-testing parameters.
#[derive(Debug)]
pub struct BacktestConfig {
    /// Starting cash (100000 by default).
    pub initial_capital: Decimal,
    pub start_date: Option<String>,
    pub end_date: Option<String>,
    /// Whether the T+1 rule holds (by default it does).
    pub t_plus_1: bool,
    /// Slippage as a fraction of the price (0.001, that is 0.1%, by default).
    pub slippage: Decimal,
}

/// The part of the configuration that the engine reads.
pub struct ConfigModel {
    pub capital: (int, nat),
    pub t_plus_1: bool,
    pub slippage: (int, nat),
}

impl View for BacktestConfig {
    type V = ConfigModel;

    open spec fn view(&self) -> ConfigModel {
        ConfigModel {
            capital: self.initial_capital@,
            t_plus_1: self.t_plus_1,
            slippage: self.slippage@,
        }
    }
}

impl BacktestConfig {
    /// The default parameters: 100000 of cash, T+1, 0.1% slippage, no date range.
    pub fn default_config() -> (r: BacktestConfig)
        ensures
            r@.capital == (100000int, 0nat),
            r@.t_plus_1,
            r@.slippage == (1int, 3nat),
            r.start_date is None,
            r.end_date is None,
    {
        BacktestConfig {
            initial_capital: Decimal::new(100000, 0),
            start_date: None,
            end_date: None,
            t_plus_1: true,
            slippage: Decimal::new(1, 3),
        }
    }
}

/// One trade of a back test.
#[derive(Debug)]
pub struct BacktestTrade {
    pub code: crate::stock::StockCode,
    /// `"BUY"` or `"SELL"`.
    pub action: String,
    pub price: Decimal,
    pub shares: i64,
    pub amount: Decimal,
    /// The costs paid.
    pub cost: Decimal,
    pub date: Date,
}

/// The model of a trade.
pub struct TradeModel {
    pub code: (Seq<char>, Seq<char>),
    pub action: Seq<char>,
    pub price: (int, nat),
    pub shares: int,
    pub amount: (int, nat),
    pub cost: (int, nat),
    pub date: (int, int, int),
}

impl View for BacktestTrade {
    type V = TradeModel;

    open spec fn view(&self) -> TradeModel {
        TradeModel {
            code: self.code@,
            action: self.action@,
            price: self.price@,
            shares: self.shares as int,
            amount: self.amount@,
            cost: self.cost@,
            date: self.date@,
        }
    }
}

/// The models of a sequence of trades.
pub open spec fn trades_view(ts: Seq<BacktestTrade>) -> Seq<TradeModel> {
    ts.map_values(|t: BacktestTrade| t@)
}

/// The outcome of a back test.
#[derive(Debug)]
pub struct BacktestResult {
    pub strategy_name: String,
    pub initial_capital: Decimal,
    pub final_capital: Decimal,
    /// Total return in percent.
    pub total_return_pct: Decimal,
    /// Largest drawdown from a peak, in percent.
    pub max_drawdown_pct: Decimal,
    /// Share of round trips with a profit, in percent.
    pub win_rate: Decimal,
    /// Average profit over average loss.
    pub profit_loss_ratio: Decimal,
    pub trade_count: usize,
    pub total_cost: Decimal,
    pub trades: Vec<BacktestTrade>,
}

/// The model of a back-test outcome.
pub struct ResultModel {
    pub name: Seq<char>,
    pub initial_capital: (int, nat),
    pub final_capital: (int, nat),
    pub total_return_pct: (int, nat),
    pub max_drawdown_pct: (int, nat),
    pub win_rate: (int, nat),
    pub profit_loss_ratio: (int, nat),
    pub trade_count: int,
    pub total_cost: (int, nat),
    pub trades: Seq<TradeModel>,
}

impl View for BacktestResult {
    type V = ResultModel;

    open spec fn view(&self) -> ResultModel {
        ResultModel {
            name: self.strategy_name@,
            initial_capital: self.initial_capital@,
            final_capital: self.final_capital@,
            total_return_pct: self.total_return_pct@,
            max_drawdown_pct: self.max_drawdown_pct@,
            win_rate: self.win_rate@,
            profit_loss_ratio: self.profit_loss_ratio@,
            trade_count: self.trade_count as int,
            total_cost: self.total_cost@,
            trades: trades_view(self.trades@),
        }
    }
}

/// The summary of an outcome as the command line prints it: the strategy, a
/// rule, then capital, return, drawdown, win rate, profit/loss ratio (two
/// decimals), the number of trades and the costs, one per line.
pub open spec fn result_text(r: BacktestResult) -> Seq<char> {
    "策略: "@ + r.strategy_name@ + "\n"@ + "───────────────────────────────────\n"@
        + "初始资金:  "@ + decimal_format_2dp(r.initial_capital@) + "\n"@
        + "最终资金:  "@ + decimal_format_2dp(r.final_capital@) + "\n"@
        + "总收益率:  "@ + decimal_format_2dp(r.total_return_pct@) + "%\n"@
        + "最大回撤:  "@ + decimal_format_2dp(r.max_drawdown_pct@) + "%\n"@
        + "胜率:      "@ + decimal_format_2dp(r.win_rate@) + "%\n"@
        + "盈亏比:    "@ + decimal_format_2dp(r.profit_loss_ratio@) + "\n"@
        + "交易次数:  "@ + decimal_digits(r.trade_count as nat) + "\n"@
        + "累计费用:  "@ + decimal_format_2dp(r.total_cost@) + "\n"@
}

impl BacktestResult {
    /// The summary text of the outcome.
    pub fn summary_text(&self) -> (r: String)
        ensures
            r@ == result_text(*self),
    {
        let mut r = String::new();
        push_str(&mut r, "策略: ");
        push_str(&mut r, self.strategy_name.as_str());
        push_str(&mut r, "\n");
        push_str(&mut r, "───────────────────────────────────\n");
        push_str(&mut r, "初始资金:  ");
        push_str(&mut r, format_2dp(&self.initial_capital).as_str());
        push_str(&mut r, "\n");
        push_str(&mut r, "最终资金:  ");
        push_str(&mut r, format_2dp(&self.final_capital).as_str());
        push_str(&mut r, "\n");
        push_str(&mut r, "总收益率:  ");
        push_str(&mut r, format_2dp(&self.total_return_pct).as_str());
        push_str(&mut r, "%\n");
        push_str(&mut r, "最大回撤:  ");
        push_str(&mut r, format_2dp(&self.max_drawdown_pct).as_str());
        push_str(&mut r, "%\n");
        push_str(&mut r, "胜率:      ");
        push_str(&mut r, format_2dp(&self.win_rate).as_str());
        push_str(&mut r, "%\n");
        push_str(&mut r, "盈亏比:    ");
        push_str(&mut r, format_2dp(&self.profit_loss_ratio).as_str());
        push_str(&mut r, "\n");
        push_str(&mut r, "交易次数:  ");
        push_decimal(&mut r, self.trade_count as u64);
        push_str(&mut r, "\n");
        push_str(&mut r, "累计费用:  ");
        push_str(&mut r, format_2dp(&self.total_cost).as_str());
        push_str(&mut r, "\n");
        r
    }
}

/// The model of an optional outcome.
pub open spec fn opt_result_view(r: Option<BacktestResult>) -> Option<ResultModel> {
    match r {
        Some(x) => Some(x@),
        None => None,
    }
}

// ----- the walk, as a state machine -----
/// The state of the walk between two bars.
pub struct SimState {
    pub cash: (int, nat),
    pub shares: int,
    pub buy_date: Option<(int, int, int)>,
    pub trades: Seq<TradeModel>,
    pub total_cost: (int, nat),
    pub peak: (int, nat),
    pub max_dd: (int, nat),
}

/// The state before the first bar.
pub open spec fn initial_state(cfg: ConfigModel) -> SimState {
    SimState {
        cash: cfg.capital,
        shares: 0,
        buy_date: None,
        trades: Seq::empty(),
        total_cost: (0, 0),
        peak: cfg.capital,
        max_dd: (0, 0),
    }
}

/// The price a signal executes at: the open, raised by the slippage for a
/// purchase and lowered by it for a sale.
pub open spec fn exec_price_of(sig: Signal, open: (int, nat), slippage: (int, nat)) -> Option<
    (int, nat),
> {
    match sig {
        Signal::Buy => match decimal_add_result((1, 0), slippage) {
            Some(f) => decimal_mul_result(open, f),
            None => None,
        },
        Signal::Sell => match decimal_sub_result((1, 0), slippage) {
            Some(f) => decimal_mul_result(open, f),
            None => None,
        },
        Signal::Hold => Some(open),
    }
}

/// `to_i64().unwrap_or(0)`: the truncated value, or 0 when it does not fit.
pub open spec fn trunc_or_zero(q: (int, nat)) -> int {
    if i64::MIN <= trunc(q) <= i64::MAX {
        trunc(q)
    } else {
        0
    }
}

/// The shares a purchase at `price` takes: all the cash can pay for, in whole lots.
pub open spec fn lot_to_buy(cash: (int, nat), price: (int, nat)) -> Option<int> {
    match decimal_div_result(cash, price) {
        Some(q) => Some(lot_of(trunc_or_zero(q))),
        None => None,
    }
}

/// A purchase at `price` with no shares held: as many whole lots as the cash
/// pays for, costs included; nothing when that is less than one lot or the cash
/// does not cover amount and costs.
pub open spec fn buy_step(st: SimState, bar: BarModel, price: (int, nat)) -> Option<SimState> {
    match lot_to_buy(st.cash, price) {
        None => None,
        Some(n) => if n >= 100 {
            match (buy_cost_of(price, n), decimal_mul_result(price, (n, 0))) {
                (Some(cost), Some(total)) => match decimal_add_result(total, cost) {
                    None => None,
                    Some(need) => if value_le(need, st.cash) {
                        match (decimal_sub_result(st.cash, need), decimal_add_result(st.total_cost, cost)) {
                            (Some(cash), Some(tc)) => Some(
                                SimState {
                                    cash,
                                    shares: n,
                                    buy_date: Some(bar.date),
                                    trades: st.trades.push(
                                        TradeModel {
                                            code: bar.code,
                                            action: "BUY"@,
                                            price,
                                            shares: n,
                                            amount: total,
                                            cost,
                                            date: bar.date,
                                        },
                                    ),
                                    total_cost: tc,
                                    ..st
                                },
                            ),
                            _ => None,
                        }
                    } else {
                        Some(st)
                    },
                },
                _ => None,
            }
        } else {
            Some(st)
        },
    }
}

/// Whether the held shares may be sold on `date`: always without T+1, else only
/// after the day they were bought.
pub open spec fn may_sell(t_plus_1: bool, buy_date: Option<(int, int, int)>, date: (int, int, int)) -> bool {
    !t_plus_1 || match buy_date {
        Some(d) => date_after(date, d),
        None => true,
    }
}

/// A sale of all held shares at `price`, when T+1 allows it.
pub open spec fn sell_step(cfg: ConfigModel, st: SimState, bar: BarModel, price: (int, nat)) -> Option<SimState> {
    if may_sell(cfg.t_plus_1, st.buy_date, bar.date) {
        match (sell_cost_of(price, st.shares), decimal_mul_result(price, (st.shares, 0))) {
            (Some(cost), Some(total)) => match decimal_sub_result(total, cost) {
                None => None,
                Some(net) => match (decimal_add_result(st.cash, net), decimal_add_result(st.total_cost, cost)) {
                    (Some(cash), Some(tc)) => Some(
                        SimState {
                            cash,
                            shares: 0,
                            buy_date: None,
                            trades: st.trades.push(
                                TradeModel {
                                    code: bar.code,
                                    action: "SELL"@,
                                    price,
                                    shares: st.shares,
                                    amount: total,
                                    cost,
                                    date: bar.date,
                                },
                            ),
                            total_cost: tc,
                            ..st
                        },
                    ),
                    _ => None,
                },
            },
            _ => None,
        }
    } else {
        Some(st)
    }
}

/// Executes a pending signal at the open of a bar.
pub open spec fn execute_signal(cfg: ConfigModel, st: SimState, bar: BarModel, sig: Signal) -> Option<SimState> {
    match exec_price_of(sig, bar.open, cfg.slippage) {
        None => None,
        Some(price) => match sig {
            Signal::Buy => if st.shares == 0 {
                buy_step(st, bar, price)
            } else {
                Some(st)
            },
            Signal::Sell => if st.shares > 0 {
                sell_step(cfg, st, bar, price)
            } else {
                Some(st)
            },
            Signal::Hold => Some(st),
        },
    }
}

/// Values the account at the close of a bar and updates peak and largest drawdown.
pub open spec fn mark_step(st: SimState, bar: BarModel) -> Option<SimState> {
    match decimal_mul_result((st.shares, 0), bar.close) {
        None => None,
        Some(held) => match decimal_add_result(st.cash, held) {
            None => None,
            Some(value) => {
                let peak = if value_lt(st.peak, value) {
                    value
                } else {
                    st.peak
                };
                match decimal_sub_result(peak, value) {
                    None => None,
                    Some(fall) => match decimal_div_result(fall, peak) {
                        None => None,
                        Some(ratio) => match decimal_mul_result(ratio, (100, 0)) {
                            None => None,
                            Some(dd) => Some(
                                SimState {
                                    peak,
                                    max_dd: if value_lt(st.max_dd, dd) {
                                        dd
                                    } else {
                                        st.max_dd
                                    },
                                    ..st
                                },
                            ),
                        },
                    },
                }
            },
        },
    }
}

/// The signal pending at bar `i`: the previous bar's signal unless it was `Hold`.
pub open spec fn pending_at(sigs: Seq<Signal>, i: int) -> Option<Signal> {
    if i >= 1 && sigs[i - 1] != Signal::Hold {
        Some(sigs[i - 1])
    } else {
        None
    }
}

/// One bar of the walk: execute the pending signal, then value the account.
pub open spec fn bar_step(cfg: ConfigModel, st: SimState, bar: BarModel, pending: Option<Signal>) -> Option<SimState> {
    let executed = match pending {
        Some(sig) => execute_signal(cfg, st, bar, sig),
        None => Some(st),
    };
    match executed {
        Some(s) => mark_step(s, bar),
        None => None,
    }
}

/// The state after the first `n` bars; `None` where the decimal arithmetic fails.
pub open spec fn walk(cfg: ConfigModel, bars: Seq<BarModel>, sigs: Seq<Signal>, n: nat) -> Option<SimState>
    decreases n,
{
    if n == 0 {
        Some(initial_state(cfg))
    } else {
        match walk(cfg, bars, sigs, (n - 1) as nat) {
            Some(st) => bar_step(cfg, st, bars[n - 1], pending_at(sigs, n - 1)),
            None => None,
        }
    }
}

// ----- win rate and profit/loss ratio -----
/// The profit of each round trip (a purchase followed by a sale), in order,
/// with the purchase amount and shares still open; `None` on overflow.
pub open spec fn round_trips(trades: Seq<TradeModel>) -> Option<(Seq<(int, nat)>, (int, nat), int)>
    decreases trades.len(),
{
    if trades.len() == 0 {
        Some((Seq::empty(), (0, 0), 0))
    } else {
        match round_trips(trades.drop_last()) {
            None => None,
            Some((profits, buy_amount, buy_shares)) => {
                let t = trades.last();
                if t.action == "BUY"@ {
                    match decimal_add_result(t.amount, t.cost) {
                        Some(a) => Some((profits, a, t.shares)),
                        None => None,
                    }
                } else if t.action == "SELL"@ {
                    if buy_shares > 0 {
                        match decimal_sub_result(t.amount, t.cost) {
                            Some(net) => match decimal_sub_result(net, buy_amount) {
                                Some(p) => Some((profits.push(p), (0, 0), 0)),
                                None => None,
                            },
                            None => None,
                        }
                    } else {
                        Some((profits, buy_amount, buy_shares))
                    }
                } else {
                    Some((profits, buy_amount, buy_shares))
                }
            },
        }
    }
}

/// The number of profits above zero.
pub open spec fn count_wins(ps: Seq<(int, nat)>) -> nat
    decreases ps.len(),
{
    if ps.len() == 0 {
        0
    } else {
        count_wins(ps.drop_last()) + if ps.last().0 > 0 {
            1nat
        } else {
            0nat
        }
    }
}

/// The number of profits below zero.
pub open spec fn count_losses(ps: Seq<(int, nat)>) -> nat
    decreases ps.len(),
{
    if ps.len() == 0 {
        0
    } else {
        count_losses(ps.drop_last()) + if ps.last().0 < 0 {
            1nat
        } else {
            0nat
        }
    }
}

/// The sum of the profits above zero, added in order from zero.
pub open spec fn sum_wins(ps: Seq<(int, nat)>) -> Option<(int, nat)>
    decreases ps.len(),
{
    if ps.len() == 0 {
        Some((0, 0))
    } else {
        match sum_wins(ps.drop_last()) {
            None => None,
            Some(acc) => if ps.last().0 > 0 {
                decimal_add_result(acc, ps.last())
            } else {
                Some(acc)
            },
        }
    }
}

/// The sum of the magnitudes of the profits below zero, added in order from zero.
pub open spec fn sum_losses(ps: Seq<(int, nat)>) -> Option<(int, nat)>
    decreases ps.len(),
{
    if ps.len() == 0 {
        Some((0, 0))
    } else {
        match sum_losses(ps.drop_last()) {
            None => None,
            Some(acc) => if ps.last().0 < 0 {
                decimal_add_result(acc, (-ps.last().0, ps.last().1))
            } else {
                Some(acc)
            },
        }
    }
}

/// Win rate and profit/loss ratio of a list of profits.
///
/// The win rate is the winning share in percent. The ratio is the average win
/// over the average loss; 99 when there are wins and no losses; 0 when there are
/// neither.
pub open spec fn win_stats(ps: Seq<(int, nat)>) -> Option<((int, nat), (int, nat))> {
    if ps.len() == 0 {
        Some(((0, 0), (0, 0)))
    } else {
        let wins = count_wins(ps);
        let losses = count_losses(ps);
        match decimal_div_result((wins as int, 0), (ps.len() as int, 0)) {
            None => None,
            Some(q) => match decimal_mul_result(q, (100, 0)) {
                None => None,
                Some(win_rate) => match (sum_wins(ps), sum_losses(ps)) {
                    (Some(total_win), Some(total_loss)) => {
                        if losses > 0 && total_loss.0 > 0 {
                            let w = if wins >= 1 {
                                wins
                            } else {
                                1
                            };
                            match (
                                decimal_div_result(total_win, (w as int, 0)),
                                decimal_div_result(total_loss, (losses as int, 0)),
                            ) {
                                (Some(avg_win), Some(avg_loss)) => match decimal_div_result(avg_win, avg_loss) {
                                    Some(pl) => Some((win_rate, pl)),
                                    None => None,
                                },
                                _ => None,
                            }
                        } else if wins > 0 {
                            Some((win_rate, (99, 0)))
                        } else {
                            Some((win_rate, (0, 0)))
                        }
                    },
                    _ => None,
                },
            },
        }
    }
}

/// Win rate and profit/loss ratio of the round trips among the trades.
pub open spec fn trade_stats(trades: Seq<TradeModel>) -> Option<((int, nat), (int, nat))> {
    match round_trips(trades) {
        Some((profits, _, _)) => win_stats(profits),
        None => None,
    }
}

/// The outcome of a back test over `bars` with `sigs[i]` the signal after bar `i`;
/// `None` where the decimal arithmetic fails (a zero price or capital, or an overflow).
pub open spec fn backtest_outcome(cfg: ConfigModel, bars: Seq<BarModel>, sigs: Seq<Signal>, name: Seq<char>) -> Option<ResultModel> {
    if bars.len() < 2 {
        Some(
            ResultModel {
                name,
                initial_capital: cfg.capital,
                final_capital: cfg.capital,
                total_return_pct: (0, 0),
                max_drawdown_pct: (0, 0),
                win_rate: (0, 0),
                profit_loss_ratio: (0, 0),
                trade_count: 0,
                total_cost: (0, 0),
                trades: Seq::empty(),
            },
        )
    } else {
        match walk(cfg, bars, sigs, bars.len()) {
            None => None,
            Some(st) => match decimal_mul_result((st.shares, 0), bars.last().close) {
                None => None,
                Some(held) => match decimal_add_result(st.cash, held) {
                    None => None,
                    Some(final_value) => match decimal_sub_result(final_value, cfg.capital) {
                        None => None,
                        Some(gain) => match decimal_div_result(gain, cfg.capital) {
                            None => None,
                            Some(ratio) => match decimal_mul_result(ratio, (100, 0)) {
                                None => None,
                                Some(ret) => match trade_stats(st.trades) {
                                    None => None,
                                    Some((win_rate, pl)) => Some(
                                        ResultModel {
                                            name,
                                            initial_capital: cfg.capital,
                                            final_capital: final_value,
                                            total_return_pct: ret,
                                            max_drawdown_pct: st.max_dd,
                                            win_rate,
                                            profit_loss_ratio: pl,
                                            trade_count: st.trades.len() as int,
                                            total_cost: st.total_cost,
                                            trades: st.trades,
                                        },
                                    ),
                                },
                            },
                        },
                    },
                },
            },
        }
    }
}


// ----- the walk, executed -----
struct Walk {
    cash: Decimal,
    shares: i64,
    buy_date: Option<Date>,
    trades: Vec<BacktestTrade>,
    total_cost: Decimal,
    peak: Decimal,
    max_dd: Decimal,
}

impl View for Walk {
    type V = SimState;

    closed spec fn view(&self) -> SimState {
        SimState {
            cash: self.cash@,
            shares: self.shares as int,
            buy_date: match self.buy_date {
                Some(d) => Some(d@),
                None => None,
            },
            trades: trades_view(self.trades@),
            total_cost: self.total_cost@,
            peak: self.peak@,
            max_dd: self.max_dd@,
        }
    }
}

spec fn opt_walk_view(w: Option<Walk>) -> Option<SimState> {
    match w {
        Some(x) => Some(x@),
        None => None,
    }
}

fn text_of(s: &str) -> (r: String)
    ensures
        r@ == s@,
{
    let mut r = String::new();
    push_str(&mut r, s);
    r
}

fn exec_price(sig: Signal, open: Decimal, slippage: Decimal) -> (r: Option<Decimal>)
    ensures
        opt_view(r) == exec_price_of(sig, open@, slippage@),
{
    match sig {
        Signal::Buy => {
            let f = Decimal::one().checked_add(&slippage)?;
            open.checked_mul(&f)
        },
        Signal::Sell => {
            let f = Decimal::one().checked_sub(&slippage)?;
            open.checked_mul(&f)
        },
        Signal::Hold => Some(open),
    }
}

fn push_trade(trades: &mut Vec<BacktestTrade>, t: BacktestTrade)
    ensures
        trades_view(final(trades)@) == trades_view(old(trades)@).push(t@),
{
    let ghost t_view = t@;
    trades.push(t);
    assert(trades_view(trades@) =~= trades_view(old(trades)@).push(t_view));
}

fn buy(st: Walk, bar: &Bar, price: Decimal) -> (r: Option<Walk>)
    ensures
        opt_walk_view(r) == buy_step(st@, bar@, price@),
{
    let q = st.cash.checked_div(&price)?;
    let whole: i64 = match q.to_i64() {
        Some(v) => v,
        None => 0,
    };
    let n = round_lot(whole);
    if n >= 100 {
        let cost = calc_buy_cost(price, n);
        let total = price.checked_mul(&Decimal::from_i64(n));
        match (cost, total) {
            (Some(cost), Some(total)) => {
                let need = total.checked_add(&cost)?;
                if need.le(&st.cash) {
                    match (st.cash.checked_sub(&need), st.total_cost.checked_add(&cost)) {
                        (Some(cash), Some(tc)) => {
                            let mut trades = st.trades;
                            push_trade(
                                &mut trades,
                                BacktestTrade {
                                    code: bar.code.duplicate(),
                                    action: text_of("BUY"),
                                    price,
                                    shares: n,
                                    amount: total,
                                    cost,
                                    date: bar.date,
                                },
                            );
                            Some(
                                Walk {
                                    cash,
                                    shares: n,
                                    buy_date: Some(bar.date),
                                    trades,
                                    total_cost: tc,
                                    peak: st.peak,
                                    max_dd: st.max_dd,
                                },
                            )
                        },
                        _ => None,
                    }
                } else {
                    Some(st)
                }
            },
            _ => None,
        }
    } else {
        Some(st)
    }
}

fn sell(t_plus_1: bool, st: Walk, bar: &Bar, price: Decimal) -> (r: Option<Walk>)
    ensures
        opt_walk_view(r) == sell_step(
            ConfigModel { capital: (0, 0), t_plus_1, slippage: (0, 0) },
            st@,
            bar@,
            price@,
        ),
{
    let can_sell = if t_plus_1 {
        match st.buy_date {
            Some(d) => bar.date.is_after(&d),
            None => true,
        }
    } else {
        true
    };
    if can_sell {
        let cost = calc_sell_cost(price, st.shares);
        let total = price.checked_mul(&Decimal::from_i64(st.shares));
        match (cost, total) {
            (Some(cost), Some(total)) => {
                let net = total.checked_sub(&cost)?;
                match (st.cash.checked_add(&net), st.total_cost.checked_add(&cost)) {
                    (Some(cash), Some(tc)) => {
                        let mut trades = st.trades;
                        push_trade(
                            &mut trades,
                            BacktestTrade {
                                code: bar.code.duplicate(),
                                action: text_of("SELL"),
                                price,
                                shares: st.shares,
                                amount: total,
                                cost,
                                date: bar.date,
                            },
                        );
                        Some(
                            Walk {
                                cash,
                                shares: 0,
                                buy_date: None,
                                trades,
                                total_cost: tc,
                                peak: st.peak,
                                max_dd: st.max_dd,
                            },
                        )
                    },
                    _ => None,
                }
            },
            _ => None,
        }
    } else {
        Some(st)
    }
}

fn mark(st: Walk, bar: &Bar) -> (r: Option<Walk>)
    ensures
        opt_walk_view(r) == mark_step(st@, bar@),
{
    let held = Decimal::from_i64(st.shares).checked_mul(&bar.close)?;
    let value = st.cash.checked_add(&held)?;
    let peak = if st.peak.lt(&value) {
        value
    } else {
        st.peak
    };
    let fall = peak.checked_sub(&value)?;
    let ratio = fall.checked_div(&peak)?;
    let dd = ratio.checked_mul(&Decimal::new(100, 0))?;
    let max_dd = if st.max_dd.lt(&dd) {
        dd
    } else {
        st.max_dd
    };
    Some(
        Walk {
            cash: st.cash,
            shares: st.shares,
            buy_date: st.buy_date,
            trades: st.trades,
            total_cost: st.total_cost,
            peak,
            max_dd,
        },
    )
}

fn step(config: &BacktestConfig, st: Walk, bar: &Bar, pending: Option<Signal>) -> (r: Option<Walk>)
    ensures
        opt_walk_view(r) == bar_step(config@, st@, bar@, pending),
{
    let executed = match pending {
        Some(sig) => {
            let price = exec_price(sig, bar.open, config.slippage)?;
            match sig {
                Signal::Buy => if st.shares == 0 {
                    buy(st, bar, price)?
                } else {
                    st
                },
                Signal::Sell => if st.shares > 0 {
                    sell(config.t_plus_1, st, bar, price)?
                } else {
                    st
                },
                Signal::Hold => st,
            }
        },
        None => st,
    };
    mark(executed, bar)
}

proof fn lemma_round_trips_fail(s: Seq<TradeModel>, i: int)
    requires
        0 <= i <= s.len(),
        round_trips(s.take(i)) is None,
    ensures
        round_trips(s) is None,
    decreases s.len() - i,
{
    if i == s.len() {
        assert(s.take(i) == s);
    } else {
        assert(s.take(i + 1).drop_last() == s.take(i));
        lemma_round_trips_fail(s, i + 1);
    }
}

/// The round-trip profits of a list of trades; `None` on overflow.
fn round_trip_profits(trades: &[BacktestTrade]) -> (r: Option<Vec<Decimal>>)
    ensures
        match round_trips(trades_view(trades@)) {
            Some((ps, _, _)) => r matches Some(v) && v@.map_values(|d: Decimal| d@) == ps,
            None => r is None,
        },
{
    let ghost tv = trades_view(trades@);
    let mut profits: Vec<Decimal> = Vec::new();
    let mut buy_amount = Decimal::zero();
    let mut buy_shares: i64 = 0;
    let mut i: usize = 0;
    while i < trades.len()
        invariant
            0 <= i <= trades.len(),
            tv == trades_view(trades@),
            round_trips(tv.take(i as int)) == Some(
                (profits@.map_values(|d: Decimal| d@), buy_amount@, buy_shares as int),
            ),
        decreases trades.len() - i,
    {
        let t = &trades[i];
        assert(tv.take(i + 1).drop_last() == tv.take(i as int));
        assert(tv.take(i + 1).last() == t@);
        if same_text(t.action.as_str(), "BUY") {
            match t.amount.checked_add(&t.cost) {
                Some(a) => {
                    buy_amount = a;
                },
                None => {
                    proof {
                        lemma_round_trips_fail(tv, i + 1);
                    }
                    return None;
                },
            }
            buy_shares = t.shares;
        } else if same_text(t.action.as_str(), "SELL") {
            if buy_shares > 0 {
                let p = match t.amount.checked_sub(&t.cost) {
                    Some(net) => net.checked_sub(&buy_amount),
                    None => None,
                };
                if p.is_none() {
                    proof {
                        lemma_round_trips_fail(tv, i + 1);
                    }
                    return None;
                }
                let p = p.unwrap();
                let ghost before = profits@;
                profits.push(p);
                assert(profits@.map_values(|d: Decimal| d@) =~= before.map_values(|d: Decimal| d@).push(
                    p@,
                ));
                buy_amount = Decimal::zero();
                buy_shares = 0;
            }
        }
        i += 1;
    }
    assert(tv.take(trades.len() as int) == tv);
    Some(profits)
}

/// Win rate (in percent) and profit/loss ratio of the round trips among the
/// trades: each purchase pairs with the sale that follows it. `None` on overflow.
pub fn calc_win_rate_pl_ratio(trades: &[BacktestTrade]) -> (r: Option<(Decimal, Decimal)>)
    ensures
        match r {
            Some((w, p)) => trade_stats(trades_view(trades@)) == Some((w@, p@)),
            None => trade_stats(trades_view(trades@)) is None,
        },
{
    let profits = round_trip_profits(trades)?;
    let ghost ps = profits@.map_values(|d: Decimal| d@);
    if profits.len() == 0 {
        return Some((Decimal::zero(), Decimal::zero()));
    }
    let mut wins: usize = 0;
    let mut losses: usize = 0;
    let mut total_win: Option<Decimal> = Some(Decimal::zero());
    let mut total_loss: Option<Decimal> = Some(Decimal::zero());
    let mut k: usize = 0;
    while k < profits.len()
        invariant
            0 <= k <= profits.len(),
            ps == profits@.map_values(|d: Decimal| d@),
            wins == count_wins(ps.take(k as int)),
            losses == count_losses(ps.take(k as int)),
            wins <= k,
            losses <= k,
            opt_view(total_win) == sum_wins(ps.take(k as int)),
            opt_view(total_loss) == sum_losses(ps.take(k as int)),
        decreases profits.len() - k,
    {
        let p = profits[k];
        assert(ps.take(k + 1).drop_last() == ps.take(k as int));
        assert(ps.take(k + 1).last() == p@);
        if p.is_positive() {
            wins += 1;
            total_win = match total_win {
                Some(acc) => acc.checked_add(&p),
                None => None,
            };
        }
        if p.is_negative() {
            losses += 1;
            total_loss = match total_loss {
                Some(acc) => acc.checked_add(&p.abs()),
                None => None,
            };
        }
        k += 1;
    }
    assert(ps.take(profits.len() as int) == ps);
    let q = Decimal::from_usize(wins).checked_div(&Decimal::from_usize(profits.len()))?;
    let win_rate = q.checked_mul(&Decimal::new(100, 0))?;
    let total_win = total_win?;
    let total_loss = total_loss?;
    if losses > 0 && total_loss.is_positive() {
        let w: usize = if wins >= 1 {
            wins
        } else {
            1
        };
        let avg_win = total_win.checked_div(&Decimal::from_usize(w));
        let avg_loss = total_loss.checked_div(&Decimal::from_usize(losses));
        match (avg_win, avg_loss) {
            (Some(aw), Some(al)) => match aw.checked_div(&al) {
                Some(pl) => Some((win_rate, pl)),
                None => None,
            },
            _ => None,
        }
    } else if wins > 0 {
        Some((win_rate, Decimal::new(99, 0)))
    } else {
        Some((win_rate, Decimal::zero()))
    }
}


proof fn lemma_walk_fail(cfg: ConfigModel, bars: Seq<BarModel>, sigs: Seq<Signal>, i: nat, n: nat)
    requires
        i <= n,
        walk(cfg, bars, sigs, i) is None,
    ensures
        walk(cfg, bars, sigs, n) is None,
    decreases n - i,
{
    if i < n {
        lemma_walk_fail(cfg, bars, sigs, i + 1, n);
    }
}

/// The back-testing engine.
#[derive(Debug)]
pub struct BacktestEngine {
    pub config: BacktestConfig,
}

impl BacktestEngine {
    /// An engine with the given parameters.
    pub fn new(config: BacktestConfig) -> (r: BacktestEngine)
        ensures
            r.config == config,
    {
        BacktestEngine { config }
    }

    /// Runs a back test with `signals[i]` as the signal after bar `i`.
    ///
    /// Fewer than two bars give an empty result. Otherwise the walk executes each
    /// signal other than `Hold` at the next bar's open, and the result reports the
    /// final value, returns, drawdown, round-trip statistics, costs and trades.
    /// `None` where the decimal arithmetic fails: an open price or a capital of
    /// zero, or an overflow.
    pub fn run_with_signals(&self, bars: &[Bar], signals: &[Signal], strategy_name: &str) -> (r:
        Option<BacktestResult>)
        requires
            bars@.len() <= signals@.len() + 1,
        ensures
            opt_result_view(r) == backtest_outcome(
                self.config@,
                bars_view(bars@),
                signals@,
                strategy_name@,
            ),
    {
        let ghost bv = bars_view(bars@);
        assert(bv.len() == bars@.len());
        let cfg = &self.config;
        if bars.len() < 2 {
            proof {
                assert(trades_view(Seq::<BacktestTrade>::empty()) =~= Seq::<TradeModel>::empty());
            }
            return Some(
                BacktestResult {
                    strategy_name: text_of(strategy_name),
                    initial_capital: cfg.initial_capital,
                    final_capital: cfg.initial_capital,
                    total_return_pct: Decimal::zero(),
                    max_drawdown_pct: Decimal::zero(),
                    win_rate: Decimal::zero(),
                    profit_loss_ratio: Decimal::zero(),
                    trade_count: 0,
                    total_cost: Decimal::zero(),
                    trades: Vec::new(),
                },
            );
        }
        let mut st = Walk {
            cash: cfg.initial_capital,
            shares: 0,
            buy_date: None,
            trades: Vec::new(),
            total_cost: Decimal::zero(),
            peak: cfg.initial_capital,
            max_dd: Decimal::zero(),
        };
        proof {
            assert(trades_view(st.trades@) =~= Seq::<TradeModel>::empty());
            assert(st@ == initial_state(cfg@));
        }
        let mut i: usize = 0;
        while i < bars.len()
            invariant
                0 <= i <= bars.len(),
                bars@.len() <= signals@.len() + 1,
                bv == bars_view(bars@),
                bv.len() == bars@.len(),
                bars@.len() >= 2,
                cfg == &self.config,
                walk(cfg@, bv, signals@, i as nat) == Some(st@),
            decreases bars.len() - i,
        {
            let pending: Option<Signal> = if i >= 1 {
                match signals[i - 1] {
                    Signal::Hold => None,
                    sig => Some(sig),
                }
            } else {
                None
            };
            assert(pending == pending_at(signals@, i as int));
            assert(bv[i as int] == bars@[i as int]@);
            match step(cfg, st, &bars[i], pending) {
                Some(next) => {
                    st = next;
                },
                None => {
                    proof {
                        assert(walk(cfg@, bv, signals@, (i + 1) as nat) is None);
                        lemma_walk_fail(cfg@, bv, signals@, (i + 1) as nat, bars.len() as nat);
                    }
                    return None;
                },
            }
            i += 1;
        }
        let last = &bars[bars.len() - 1];
        assert(bv.last() == last@);
        let held = Decimal::from_i64(st.shares).checked_mul(&last.close)?;
        let final_value = st.cash.checked_add(&held)?;
        let gain = final_value.checked_sub(&cfg.initial_capital)?;
        let ratio = gain.checked_div(&cfg.initial_capital)?;
        let total_return_pct = ratio.checked_mul(&Decimal::new(100, 0))?;
        let (win_rate, profit_loss_ratio) = calc_win_rate_pl_ratio(st.trades.as_slice())?;
        let trade_count = st.trades.len();
        Some(
            BacktestResult {
                strategy_name: text_of(strategy_name),
                initial_capital: cfg.initial_capital,
                final_capital: final_value,
                total_return_pct,
                max_drawdown_pct: st.max_dd,
                win_rate,
                profit_loss_ratio,
                trade_count,
                total_cost: st.total_cost,
                trades: st.trades,
            },
        )
    }

    /// Runs a back test of a strategy: the strategy gives the signal after each
    /// bar but the last, from the bars up to it, and the walk is that of
    /// `run_with_signals` under the strategy's name.
    pub fn run<S: Strategy>(&self, bars: &[Bar], strategy: &S) -> (r: Option<BacktestResult>)
        ensures
            opt_result_view(r) == backtest_outcome(
                self.config@,
                bars_view(bars@),
                strategy_signals(strategy, bars@),
                strategy.name_spec(),
            ),
    {
        let mut signals: Vec<Signal> = Vec::new();
        let m: usize = if bars.len() == 0 {
            0
        } else {
            bars.len() - 1
        };
        let ghost want = strategy_signals(strategy, bars@);
        let mut i: usize = 0;
        while i < m
            invariant
                signals@.len() == i,
                i <= m,
                m < bars.len() || m == 0,
                bars.len() <= m + 1,
                want == strategy_signals(strategy, bars@),
                want.len() == m,
                forall|k: int| 0 <= k < i ==> signals@[k] == want[k],
            decreases m - i,
        {
            let sig = strategy.generate_signal(bars, i);
            assert(sig == want[i as int]);
            signals.push(sig);
            i += 1;
        }
        assert(signals@ =~= want);
        let name = strategy.name();
        let r = self.run_with_signals(bars, signals.as_slice(), name.as_str());
        r
    }
}


// ----- laws of the walk -----
/// A whole number of lots, at least one.
pub open spec fn is_lot(n: int) -> bool {
    n >= 100 && n % 100 == 0
}

/// The shape of a trade list: purchases and sales alternate, starting with a
/// purchase; every purchase is of whole lots; every sale sells what the purchase
/// before it bought; under T+1 every sale falls on a later day than that purchase.
pub open spec fn trades_well_formed(trades: Seq<TradeModel>, t_plus_1: bool) -> bool {
    forall|k: int|
        #![trigger trades[k]]
        0 <= k < trades.len() ==> {
            &&& k % 2 == 0 ==> trades[k].action == "BUY"@ && is_lot(trades[k].shares)
            &&& k % 2 == 1 ==> trades[k].action == "SELL"@ && trades[k].shares == trades[k
                - 1].shares && (t_plus_1 ==> date_after(trades[k].date, trades[k - 1].date))
        }
}

/// The state agrees with its trades: after a purchase the shares and the date
/// of that purchase are held, after a sale (or before any trade) nothing is.
pub open spec fn state_consistent(st: SimState, t_plus_1: bool) -> bool {
    &&& trades_well_formed(st.trades, t_plus_1)
    &&& st.max_dd.0 >= 0
    &&& st.trades.len() % 2 == 0 ==> st.shares == 0 && st.buy_date is None
    &&& st.trades.len() % 2 == 1 ==> st.shares == st.trades.last().shares && st.buy_date == Some(
        st.trades.last().date,
    )
}

proof fn lemma_lot_of(x: int)
    ensures
        lot_of(x) >= 100 ==> is_lot(lot_of(x)),
{
    if x >= 0 {
        assert((x / 100) * 100 % 100 == 0) by (nonlinear_arith);
    } else {
        assert(((-x) / 100) * 100 >= 0) by (nonlinear_arith)
            requires
                -x > 0,
        ;
    }
}

proof fn lemma_push_well_formed(trades: Seq<TradeModel>, t: TradeModel, t_plus_1: bool)
    requires
        trades_well_formed(trades, t_plus_1),
        trades.len() % 2 == 0 ==> t.action == "BUY"@ && is_lot(t.shares),
        trades.len() % 2 == 1 ==> t.action == "SELL"@ && t.shares == trades.last().shares && (
        t_plus_1 ==> date_after(t.date, trades.last().date)),
    ensures
        trades_well_formed(trades.push(t), t_plus_1),
{
    let ts = trades.push(t);
    assert forall|k: int| #![trigger ts[k]] 0 <= k < ts.len() implies {
        &&& k % 2 == 0 ==> ts[k].action == "BUY"@ && is_lot(ts[k].shares)
        &&& k % 2 == 1 ==> ts[k].action == "SELL"@ && ts[k].shares == ts[k - 1].shares && (t_plus_1
            ==> date_after(ts[k].date, ts[k - 1].date))
    } by {
        if k < trades.len() {
            assert(ts[k] == trades[k]);
            if k >= 1 {
                assert(ts[k - 1] == trades[k - 1]);
            }
        } else {
            if k >= 1 {
                assert(ts[k - 1] == trades.last());
            }
        }
    }
}

proof fn lemma_step_consistent(cfg: ConfigModel, st: SimState, bar: BarModel, pending: Option<Signal>)
    requires
        state_consistent(st, cfg.t_plus_1),
        st.shares >= 0,
    ensures
        bar_step(cfg, st, bar, pending) matches Some(s) ==> state_consistent(s, cfg.t_plus_1)
            && s.shares >= 0,
{
    let executed = match pending {
        Some(sig) => execute_signal(cfg, st, bar, sig),
        None => Some(st),
    };
    if let Some(e) = executed {
        if let Some(m) = mark_step(e, bar) {
            if m.max_dd != e.max_dd {
                let dd = m.max_dd;
                lemma_pow10_positive(dd.1);
                lemma_pow10_positive(e.max_dd.1);
                assert(e.max_dd.0 * pow10(dd.1) >= 0) by (nonlinear_arith)
                    requires
                        e.max_dd.0 >= 0,
                        pow10(dd.1) > 0,
                ;
                assert(dd.0 > 0) by (nonlinear_arith)
                    requires
                        dd.0 * pow10(e.max_dd.1) > 0,
                        pow10(e.max_dd.1) > 0,
                ;
            }
        }
    }
    if st.trades.len() % 2 == 1 {
        let last = st.trades[st.trades.len() - 1];
        assert(st.trades.last() == last);
        assert(is_lot(last.shares));
    }
    if let Some(sig) = pending {
        if let Some(price) = exec_price_of(sig, bar.open, cfg.slippage) {
            if sig == Signal::Buy && st.shares == 0 {
                if let Some(n) = lot_to_buy(st.cash, price) {
                    lemma_lot_of(trunc_or_zero(decimal_div_result(st.cash, price)->0));
                    if let Some(s) = buy_step(st, bar, price) {
                        if s.trades.len() != st.trades.len() {
                            let t = s.trades.last();
                            assert(s.trades == st.trades.push(t));
                            lemma_push_well_formed(st.trades, t, cfg.t_plus_1);
                        }
                    }
                }
            }
            if sig == Signal::Sell && st.shares > 0 {
                if let Some(s) = sell_step(cfg, st, bar, price) {
                    if s.trades.len() != st.trades.len() {
                        let t = s.trades.last();
                        assert(s.trades == st.trades.push(t));
                        lemma_push_well_formed(st.trades, t, cfg.t_plus_1);
                    }
                }
            }
        }
    }
}

proof fn lemma_walk_consistent(cfg: ConfigModel, bars: Seq<BarModel>, sigs: Seq<Signal>, n: nat)
    ensures
        walk(cfg, bars, sigs, n) matches Some(s) ==> state_consistent(s, cfg.t_plus_1) && s.shares
            >= 0,
    decreases n,
{
    if n > 0 {
        lemma_walk_consistent(cfg, bars, sigs, (n - 1) as nat);
        if let Some(st) = walk(cfg, bars, sigs, (n - 1) as nat) {
            lemma_step_consistent(cfg, st, bars[n - 1], pending_at(sigs, n - 1));
        }
    } else {
        assert(trades_well_formed(Seq::<TradeModel>::empty(), cfg.t_plus_1));
    }
}

/// The trades of every back test alternate purchase and sale, starting with a
/// purchase; purchases are of whole lots of 100 shares; a sale sells exactly what
/// the purchase before it bought; under T+1 a sale never falls on the day of its
/// purchase; the trade count is the number of trades; and the largest drawdown
/// is never negative.
pub proof fn law_backtest_trades(cfg: ConfigModel, bars: Seq<BarModel>, sigs: Seq<Signal>, name: Seq<char>)
    requires
        backtest_outcome(cfg, bars, sigs, name) is Some,
    ensures
        trades_well_formed(backtest_outcome(cfg, bars, sigs, name)->0.trades, cfg.t_plus_1),
        backtest_outcome(cfg, bars, sigs, name)->0.trade_count == backtest_outcome(
            cfg,
            bars,
            sigs,
            name,
        )->0.trades.len(),
        backtest_outcome(cfg, bars, sigs, name)->0.max_drawdown_pct.0 >= 0,
{
    lemma_walk_consistent(cfg, bars, sigs, bars.len());
    if bars.len() < 2 {
        assert(trades_well_formed(Seq::<TradeModel>::empty(), cfg.t_plus_1));
    }
}

// ----- what the cash and the final value are -----

/// The cash an account holds after a list of trades, starting from `capital`:
/// a purchase pays its amount plus its costs, a sale brings in its amount less
/// its costs; `None` where the decimal arithmetic fails.
pub open spec fn cash_after(capital: (int, nat), trades: Seq<TradeModel>) -> Option<(int, nat)>
    decreases trades.len(),
{
    if trades.len() == 0 {
        Some(capital)
    } else {
        match cash_after(capital, trades.drop_last()) {
            None => None,
            Some(c) => {
                let t = trades.last();
                if t.action == "BUY"@ {
                    match decimal_add_result(t.amount, t.cost) {
                        Some(paid) => decimal_sub_result(c, paid),
                        None => None,
                    }
                } else {
                    match decimal_sub_result(t.amount, t.cost) {
                        Some(net) => decimal_add_result(c, net),
                        None => None,
                    }
                }
            },
        }
    }
}

/// The shares still held after a list of trades: those of the last purchase
/// when no sale follows it, none otherwise.
pub open spec fn held_shares(trades: Seq<TradeModel>) -> int {
    if trades.len() % 2 == 1 {
        trades.last().shares
    } else {
        0
    }
}

proof fn lemma_step_cash(cfg: ConfigModel, st: SimState, bar: BarModel, pending: Option<Signal>)
    requires
        cash_after(cfg.capital, st.trades) == Some(st.cash),
    ensures
        bar_step(cfg, st, bar, pending) matches Some(s) ==> cash_after(cfg.capital, s.trades) == Some(s.cash),
{
    reveal_strlit("BUY");
    reveal_strlit("SELL");
    assert("BUY"@ != "SELL"@) by {
        assert("BUY"@[0] != "SELL"@[0]);
    }
    if let Some(sig) = pending {
        if let Some(price) = exec_price_of(sig, bar.open, cfg.slippage) {
            if sig == Signal::Buy && st.shares == 0 {
                if let Some(n) = buy_step(st, bar, price) {
                    if n.trades.len() != st.trades.len() {
                        assert(n.trades.drop_last() == st.trades);
                    }
                }
            }
            if sig == Signal::Sell && st.shares > 0 {
                if let Some(n) = sell_step(cfg, st, bar, price) {
                    if n.trades.len() != st.trades.len() {
                        assert(n.trades.drop_last() == st.trades);
                    }
                }
            }
        }
    }
}

proof fn lemma_walk_cash(cfg: ConfigModel, bars: Seq<BarModel>, sigs: Seq<Signal>, n: nat)
    ensures
        walk(cfg, bars, sigs, n) matches Some(s) ==> cash_after(cfg.capital, s.trades) == Some(s.cash),
    decreases n,
{
    if n > 0 {
        lemma_walk_cash(cfg, bars, sigs, (n - 1) as nat);
        if let Some(st) = walk(cfg, bars, sigs, (n - 1) as nat) {
            lemma_step_cash(cfg, st, bars[n - 1], pending_at(sigs, n - 1));
        }
    }
}

/// The final capital of a back test is the cash left after its trades (each
/// purchase paying its amount and costs, each sale bringing in its amount less
/// costs) plus the shares still held, valued at the last bar's close; the
/// total return is the gain over the initial capital, in percent. With fewer
/// than two bars nothing happens: the final capital is the initial one.
pub proof fn law_final_capital(cfg: ConfigModel, bars: Seq<BarModel>, sigs: Seq<Signal>, name: Seq<char>)
    requires
        backtest_outcome(cfg, bars, sigs, name) is Some,
    ensures
        ({
            let r = backtest_outcome(cfg, bars, sigs, name)->0;
            &&& bars.len() < 2 ==> r.final_capital == cfg.capital && r.total_return_pct == (0int, 0nat)
                && r.trades.len() == 0
            &&& bars.len() >= 2 ==> {
                &&& cash_after(cfg.capital, r.trades) matches Some(cash)
                    && decimal_mul_result((held_shares(r.trades), 0), bars.last().close) matches Some(held)
                    && decimal_add_result(cash, held) == Some(r.final_capital)
                &&& decimal_sub_result(r.final_capital, cfg.capital) matches Some(gain)
                    && decimal_div_result(gain, cfg.capital) matches Some(q)
                    && decimal_mul_result(q, (100int, 0nat)) == Some(r.total_return_pct)
            }
        }),
{
    lemma_walk_cash(cfg, bars, sigs, bars.len());
    lemma_walk_consistent(cfg, bars, sigs, bars.len());
}

/// The win rate is the share of winning round trips in percent. Where some
/// round trips lose, the profit/loss ratio is the average win (the total of
/// the profits above zero over the number of wins, at least one) divided by
/// the average loss (the total of the losses over their number), not the
/// reverse; with wins and no loss it is 99, with neither 0.
pub proof fn law_win_rate_and_ratio(ps: Seq<(int, nat)>)
    requires
        ps.len() > 0,
        win_stats(ps) is Some,
    ensures
        ({
            let (wr, pl) = win_stats(ps)->0;
            let wins = count_wins(ps);
            let losses = count_losses(ps);
            let total_loss = sum_losses(ps)->0;
            let has_losses = losses > 0 && sum_losses(ps) is Some && total_loss.0 > 0;
            &&& decimal_div_result((wins as int, 0nat), (ps.len() as int, 0nat)) matches Some(q)
                && decimal_mul_result(q, (100int, 0nat)) == Some(wr)
            &&& has_losses ==> {
                &&& decimal_div_result(
                    sum_wins(ps)->0,
                    ((if wins >= 1 {
                        wins
                    } else {
                        1
                    }) as int, 0nat),
                ) matches Some(avg_win)
                    && decimal_div_result(sum_losses(ps)->0, (losses as int, 0nat)) matches Some(avg_loss)
                    && decimal_div_result(avg_win, avg_loss) == Some(pl)
            }
            &&& !has_losses ==> pl == (if wins > 0 {
                (99int, 0nat)
            } else {
                (0int, 0nat)
            })
        }),
{
}

// ----- where each trade comes from -----

/// A trade executed at bar `j`: on that bar's date and code, for the signal
/// given after the bar before, at the bar's open with the slippage against
/// the trader, for an amount of price times shares and the costs of the cost
/// model for that side.
pub open spec fn executed_at(cfg: ConfigModel, bars: Seq<BarModel>, sigs: Seq<Signal>, t: TradeModel, j: int) -> bool {
    &&& 1 <= j < bars.len()
    &&& t.date == bars[j].date
    &&& t.code == bars[j].code
    &&& decimal_mul_result(t.price, (t.shares, 0)) == Some(t.amount)
    &&& (t.action == "BUY"@ || t.action == "SELL"@)
    &&& t.action == "BUY"@ ==> sigs[j - 1] == Signal::Buy && (decimal_add_result((1int, 0nat), cfg.slippage) matches Some(
        f,
    ) && decimal_mul_result(bars[j].open, f) == Some(t.price)) && buy_cost_of(t.price, t.shares) == Some(t.cost)
    &&& t.action == "SELL"@ ==> sigs[j - 1] == Signal::Sell && (decimal_sub_result((1int, 0nat), cfg.slippage) matches Some(
        f,
    ) && decimal_mul_result(bars[j].open, f) == Some(t.price)) && sell_cost_of(t.price, t.shares) == Some(t.cost)
}

/// A trade was executed at one of the first `n` bars.
pub open spec fn executed_before(cfg: ConfigModel, bars: Seq<BarModel>, sigs: Seq<Signal>, t: TradeModel, n: int) -> bool {
    exists|j: int| j < n && #[trigger] executed_at(cfg, bars, sigs, t, j)
}

/// Every trade of a list was executed at one of the first `n` bars.
pub open spec fn all_executed(cfg: ConfigModel, bars: Seq<BarModel>, sigs: Seq<Signal>, trades: Seq<TradeModel>, n: int) -> bool {
    forall|k: int| 0 <= k < trades.len() ==> #[trigger] executed_before(cfg, bars, sigs, trades[k], n)
}

proof fn lemma_walk_executed(cfg: ConfigModel, bars: Seq<BarModel>, sigs: Seq<Signal>, n: nat)
    requires
        n <= bars.len(),
    ensures
        walk(cfg, bars, sigs, n) matches Some(s) ==> all_executed(cfg, bars, sigs, s.trades, n as int),
    decreases n,
{
    reveal_strlit("BUY");
    reveal_strlit("SELL");
    assert("BUY"@ != "SELL"@) by {
        assert("BUY"@[0] != "SELL"@[0]);
    }
    if n > 0 {
        lemma_walk_executed(cfg, bars, sigs, (n - 1) as nat);
        if let Some(st) = walk(cfg, bars, sigs, (n - 1) as nat) {
            let bar = bars[n - 1];
            let pending = pending_at(sigs, n - 1);
            let executed = match pending {
                Some(sig) => execute_signal(cfg, st, bar, sig),
                None => Some(st),
            };
            if let Some(e) = executed {
                if let Some(m) = mark_step(e, bar) {
                    assert(walk(cfg, bars, sigs, n) == Some(m));
                    assert(m.trades == e.trades);
                    assert(e.trades.len() == st.trades.len() || e.trades.len() == st.trades.len() + 1);
                    if e.trades.len() != st.trades.len() {
                        let sig = pending->0;
                        let t = e.trades.last();
                        assert(e.trades.drop_last() == st.trades);
                        assert(executed_at(cfg, bars, sigs, t, n - 1));
                    }
                    assert forall|k: int| 0 <= k < m.trades.len() implies #[trigger] executed_before(
                        cfg,
                        bars,
                        sigs,
                        m.trades[k],
                        n as int,
                    ) by {
                        if k < st.trades.len() {
                            assert(m.trades[k] == st.trades[k]);
                            assert(executed_before(cfg, bars, sigs, st.trades[k], n - 1));
                            let j = choose|j: int| j < n - 1 && #[trigger] executed_at(cfg, bars, sigs, st.trades[k], j);
                            assert(executed_at(cfg, bars, sigs, m.trades[k], j));
                        } else {
                            assert(executed_at(cfg, bars, sigs, m.trades[k], n - 1));
                        }
                    }
                    assert(all_executed(cfg, bars, sigs, m.trades, n as int));
                }
            }
        }
    } else {
        assert(initial_state(cfg).trades.len() == 0);
    }
}

/// Every trade of a back test executes the signal given after the bar before
/// it, at the next bar's open: a purchase for a `Buy` signal at the open
/// raised by the slippage, a sale for a `Sell` signal at the open lowered by
/// it, on that bar's date, for the price times the shares, paying the costs of
/// that side.
pub proof fn law_trades_execute_signals(cfg: ConfigModel, bars: Seq<BarModel>, sigs: Seq<Signal>, name: Seq<char>)
    requires
        backtest_outcome(cfg, bars, sigs, name) is Some,
    ensures
        all_executed(cfg, bars, sigs, backtest_outcome(cfg, bars, sigs, name)->0.trades, bars.len() as int),
{
    lemma_walk_executed(cfg, bars, sigs, bars.len());
}

// ----- what a round trip earns -----

/// The profit of a round trip: what the sale brings in (its amount less its
/// costs) less what the purchase paid (its amount plus its costs).
pub open spec fn pair_profit(buy: TradeModel, sell: TradeModel) -> Option<(int, nat)> {
    match (decimal_add_result(buy.amount, buy.cost), decimal_sub_result(sell.amount, sell.cost)) {
        (Some(paid), Some(net)) => decimal_sub_result(net, paid),
        _ => None,
    }
}

proof fn lemma_round_trips(trades: Seq<TradeModel>, t_plus_1: bool)
    requires
        trades_well_formed(trades, t_plus_1),
        round_trips(trades) is Some,
    ensures
        ({
            let (ps, paid, open) = round_trips(trades)->0;
            &&& ps.len() == trades.len() / 2
            &&& forall|k: int| 0 <= k < ps.len() ==> pair_profit(trades[2 * k], trades[2 * k + 1]) == Some(
                #[trigger] ps[k],
            )
            &&& trades.len() % 2 == 0 ==> open == 0
            &&& trades.len() % 2 == 1 ==> open == trades.last().shares && decimal_add_result(
                trades.last().amount,
                trades.last().cost,
            ) == Some(paid)
        }),
    decreases trades.len(),
{
    reveal_strlit("BUY");
    reveal_strlit("SELL");
    assert("BUY"@ != "SELL"@) by {
        assert("BUY"@[0] != "SELL"@[0]);
    }
    if trades.len() > 0 {
        let prev = trades.drop_last();
        let n = trades.len() - 1;
        assert forall|k: int| 0 <= k < prev.len() implies #[trigger] prev[k] == trades[k] by {}
        assert(trades_well_formed(prev, t_plus_1)) by {
            assert forall|k: int| 0 <= k < prev.len() implies {
                &&& k % 2 == 0 ==> #[trigger] prev[k].action == "BUY"@ && is_lot(prev[k].shares)
                &&& k % 2 == 1 ==> prev[k].action == "SELL"@ && prev[k].shares == prev[k - 1].shares && (t_plus_1
                    ==> date_after(prev[k].date, prev[k - 1].date))
            } by {
                assert(trades[k] == prev[k]);
                if k >= 1 {
                    assert(trades[k - 1] == prev[k - 1]);
                }
            }
        }
        assert(round_trips(prev) is Some);
        lemma_round_trips(prev, t_plus_1);
        let (pps, ppaid, popen) = round_trips(prev)->0;
        let t = trades[n];
        assert(trades.last() == t);
        if n % 2 == 0 {
            assert(t.action == "BUY"@);
        } else {
            assert(t.action == "SELL"@);
            assert(prev.last() == trades[n - 1]);
            assert(trades[n - 1].shares >= 100);
            let (ps, paid, open) = round_trips(trades)->0;
            assert(ps == pps.push(ps.last()));
            assert forall|k: int| 0 <= k < ps.len() implies pair_profit(trades[2 * k], trades[2 * k + 1]) == Some(
                #[trigger] ps[k],
            ) by {
                if k < pps.len() {
                    assert(ps[k] == pps[k]);
                    assert(trades[2 * k] == prev[2 * k]);
                    assert(trades[2 * k + 1] == prev[2 * k + 1]);
                } else {
                    assert(2 * k + 1 == n);
                }
            }
        }
    }
}

/// The profits of a back test's round trips: each purchase pairs with the sale
/// that follows it, and the k-th profit is what that sale brought in, less its
/// costs, minus what the purchase paid, costs included. A purchase still open
/// at the end makes no profit.
pub proof fn law_round_trip_profits(trades: Seq<TradeModel>, t_plus_1: bool)
    requires
        trades_well_formed(trades, t_plus_1),
        round_trips(trades) is Some,
    ensures
        (round_trips(trades)->0).0.len() == trades.len() / 2,
        forall|k: int|
            0 <= k < trades.len() / 2 ==> pair_profit(trades[2 * k], trades[2 * k + 1]) == Some(
                #[trigger] (round_trips(trades)->0).0[k],
            ),
{
    lemma_round_trips(trades, t_plus_1);
}

} // verus!
