//! Market data records: dates, K-line bars, quotes, trades, order books and
//! money flows.
use vstd::prelude::*;
use crate::decimal::{Decimal, opt_view};
use crate::stock::StockCode;
use crate::text::{padded_digits, push_char, push_padded};

verus! {

/// A calendar date.
#[derive(Debug, Clone, Copy, PartialEq, Eq)]
pub struct Date {
    pub year: i32,
    pub month: u32,
    pub day: u32,
}

impl View for Date {
    type V = (int, int, int);

    open spec fn view(&self) -> (int, int, int) {
        (self.year as int, self.month as int, self.day as int)
    }
}

/// `a` falls after `b`.
pub open spec fn date_after(a: (int, int, int), b: (int, int, int)) -> bool {
    a.0 > b.0 || (a.0 == b.0 && (a.1 > b.1 || (a.1 == b.1 && a.2 > b.2)))
}

/// The text of a date as `chrono` writes it: `YYYY-MM-DD`, the year with four
/// digits, or with its sign and at least four digits outside `0..=9999`.
pub open spec fn date_text(d: (int, int, int)) -> Seq<char> {
    let year = if 0 <= d.0 <= 9999 {
        padded_digits(d.0 as nat, 4)
    } else if d.0 < 0 {
        seq!['-'] + padded_digits((-d.0) as nat, 4)
    } else {
        seq!['+'] + padded_digits(d.0 as nat, 4)
    };
    year + seq!['-'] + padded_digits(d.1 as nat, 2) + seq!['-'] + padded_digits(d.2 as nat, 2)
}

impl Date {
    /// The date as text, `2024-01-02` (what `NaiveDate::to_string` gives).
    pub fn to_text(&self) -> (r: String)
        ensures
            r@ == date_text(self@),
    {
        let mut r = String::new();
        if 0 <= self.year && self.year <= 9999 {
            push_padded(&mut r, self.year as u64, 4);
        } else if self.year < 0 {
            push_char(&mut r, '-');
            let a: u64 = (-(self.year as i64)) as u64;
            push_padded(&mut r, a, 4);
        } else {
            push_char(&mut r, '+');
            push_padded(&mut r, self.year as u64, 4);
        }
        push_char(&mut r, '-');
        push_padded(&mut r, self.month as u64, 2);
        push_char(&mut r, '-');
        push_padded(&mut r, self.day as u64, 2);
        r
    }

    /// Whether this date falls after `other`.
    pub fn is_after(&self, other: &Date) -> (r: bool)
        ensures
            r == date_after(self@, other@),
    {
        self.year > other.year || (self.year == other.year && (self.month > other.month || (
        self.month == other.month && self.day > other.day)))
    }
}

/// One K-line bar (open, high, low, close, volume).
#[derive(Debug)]
pub struct Bar {
    pub code: StockCode,
    pub date: Date,
    pub open: Decimal,
    pub close: Decimal,
    pub high: Decimal,
    pub low: Decimal,
    /// Volume in shares.
    pub volume: i64,
    /// Turnover in yuan.
    pub turnover: Decimal,
}

/// The model of a bar.
pub struct BarModel {
    pub code: (Seq<char>, Seq<char>),
    pub date: (int, int, int),
    pub open: (int, nat),
    pub close: (int, nat),
    pub high: (int, nat),
    pub low: (int, nat),
    pub volume: int,
    pub turnover: (int, nat),
}

impl View for Bar {
    type V = BarModel;

    open spec fn view(&self) -> BarModel {
        BarModel {
            code: self.code@,
            date: self.date@,
            open: self.open@,
            close: self.close@,
            high: self.high@,
            low: self.low@,
            volume: self.volume as int,
            turnover: self.turnover@,
        }
    }
}

/// The models of a sequence of bars.
pub open spec fn bars_view(bars: Seq<Bar>) -> Seq<BarModel> {
    bars.map_values(|b: Bar| b@)
}

/// A time series of K-line bars.
#[derive(Debug)]
pub struct BarSeries {
    pub bars: Vec<Bar>,
}

impl BarSeries {
    /// A series holding the given bars.
    pub fn new(bars: Vec<Bar>) -> (r: BarSeries)
        ensures
            r.bars@ == bars@,
    {
        BarSeries { bars }
    }

    /// The last `n` bars (all of them when there are fewer).
    pub fn last_n(&self, n: usize) -> (r: &[Bar])
        ensures
            r@ == self.bars@.skip(if n >= self.bars@.len() {
                0
            } else {
                self.bars@.len() - n
            }),
    {
        let len = self.bars.len();
        let start = if n >= len {
            0
        } else {
            len - n
        };
        let (_, tail) = self.bars.as_slice().split_at(start);
        tail
    }

    /// Whether the series holds no bar.
    pub fn is_empty(&self) -> (r: bool)
        ensures
            r == (self.bars@.len() == 0),
    {
        self.bars.len() == 0
    }

    /// The number of bars.
    pub fn len(&self) -> (r: usize)
        ensures
            r == self.bars@.len(),
    {
        self.bars.len()
    }
}

/// A real-time quote snapshot.
#[derive(Debug)]
pub struct Quote {
    pub code: StockCode,
    pub name: String,
    /// Last price.
    pub price: Decimal,
    /// Previous close.
    pub prev_close: Decimal,
    pub open: Decimal,
    pub high: Decimal,
    pub low: Decimal,
    /// Volume in shares.
    pub volume: i64,
    /// Turnover in yuan.
    pub turnover: Decimal,
    /// Best bid price.
    pub bid: Decimal,
    /// Best ask price.
    pub ask: Decimal,
    pub bid_vol: Option<i64>,
    pub ask_vol: Option<i64>,
    /// Change against the previous close.
    pub change: Decimal,
    /// Change in percent.
    pub change_pct: Decimal,
    /// Upper price limit of the day.
    pub high_limit: Option<Decimal>,
    /// Lower price limit of the day.
    pub low_limit: Option<Decimal>,
    /// Volume of active sells.
    pub inner_vol: Option<i64>,
    /// Volume of active buys.
    pub outer_vol: Option<i64>,
    /// Opening auction volume.
    pub open_vol: Option<i64>,
    /// Time of the data.
    pub time: String,
    pub update_time: Option<String>,
    /// Trading status.
    pub stock_status: Option<String>,
}

/// The model of a quote.
pub struct QuoteModel {
    pub code: (Seq<char>, Seq<char>),
    pub name: Seq<char>,
    pub price: (int, nat),
    pub prev_close: (int, nat),
    pub open: (int, nat),
    pub high: (int, nat),
    pub low: (int, nat),
    pub volume: int,
    pub turnover: (int, nat),
    pub bid: (int, nat),
    pub ask: (int, nat),
    pub bid_vol: Option<i64>,
    pub ask_vol: Option<i64>,
    pub change: (int, nat),
    pub change_pct: (int, nat),
    pub high_limit: Option<(int, nat)>,
    pub low_limit: Option<(int, nat)>,
    pub inner_vol: Option<i64>,
    pub outer_vol: Option<i64>,
    pub open_vol: Option<i64>,
    pub time: Seq<char>,
    pub update_time: Option<Seq<char>>,
    pub stock_status: Option<Seq<char>>,
}

/// The model of an optional text.
pub open spec fn opt_text(o: Option<String>) -> Option<Seq<char>> {
    match o {
        Some(s) => Some(s@),
        None => None,
    }
}

impl View for Quote {
    type V = QuoteModel;

    open spec fn view(&self) -> QuoteModel {
        QuoteModel {
            code: self.code@,
            name: self.name@,
            price: self.price@,
            prev_close: self.prev_close@,
            open: self.open@,
            high: self.high@,
            low: self.low@,
            volume: self.volume as int,
            turnover: self.turnover@,
            bid: self.bid@,
            ask: self.ask@,
            bid_vol: self.bid_vol,
            ask_vol: self.ask_vol,
            change: self.change@,
            change_pct: self.change_pct@,
            high_limit: opt_view(self.high_limit),
            low_limit: opt_view(self.low_limit),
            inner_vol: self.inner_vol,
            outer_vol: self.outer_vol,
            open_vol: self.open_vol,
            time: self.time@,
            update_time: opt_text(self.update_time),
            stock_status: opt_text(self.stock_status),
        }
    }
}

/// The models of a sequence of quotes.
pub open spec fn quotes_view(qs: Seq<Quote>) -> Seq<QuoteModel> {
    qs.map_values(|q: Quote| q@)
}

impl Quote {
    /// Whether the price is up on the day.
    pub fn is_up(&self) -> (r: bool)
        ensures
            r == (self.change@.0 > 0),
    {
        self.change.is_positive()
    }

    /// Whether the price is down on the day.
    pub fn is_down(&self) -> (r: bool)
        ensures
            r == (self.change@.0 < 0),
    {
        self.change.is_negative()
    }
}

/// One trade of the tick-by-tick record.
#[derive(Debug)]
pub struct TickTrade {
    /// Identifier from the source, when it gives one.
    pub tick_id: Option<String>,
    pub code: StockCode,
    /// Time `HH:MM:SS`.
    pub trade_time: String,
    pub price: Decimal,
    /// Volume in shares.
    pub volume: i64,
    /// `buy`, `sell` or `neutral`.
    pub direction: String,
    pub source: String,
}

/// Five levels of the order book.
#[derive(Debug)]
pub struct OrderBookSnapshot {
    pub code: StockCode,
    pub snap_time: String,
    /// Bid prices, best first.
    pub bid_prices: [Decimal; 5],
    /// Bid volumes in shares.
    pub bid_volumes: [i64; 5],
    /// Ask prices, best first.
    pub ask_prices: [Decimal; 5],
    /// Ask volumes in shares.
    pub ask_volumes: [i64; 5],
    pub source: String,
}

/// The money flow of a trading day.
#[derive(Debug)]
pub struct MoneyFlow {
    pub code: StockCode,
    /// `YYYY-MM-DD`.
    pub trade_date: String,
    pub main_inflow: Decimal,
    pub main_outflow: Decimal,
    pub main_net: Decimal,
    pub retail_inflow: Decimal,
    pub retail_outflow: Decimal,
    pub retail_net: Decimal,
    pub source: String,
}

/// A point of the intraday time-share chart.
#[derive(Debug)]
pub struct TimesharePoint {
    pub code: StockCode,
    /// `HH:MM:SS`.
    pub trade_time: String,
    pub price: Decimal,
    /// Volume of this trade in shares.
    pub volume: i64,
    pub avg_price: Option<Decimal>,
    pub cum_volume: Option<i64>,
}

/// Margin trading figures of a day.
#[derive(Debug)]
pub struct MarginData {
    pub code: StockCode,
    /// `YYYY-MM-DD`.
    pub trade_date: String,
    /// Financing balance in yuan.
    pub fin_balance: Decimal,
    /// Financing purchases in yuan.
    pub fin_buy_amt: Decimal,
    /// Securities lending balance in yuan.
    pub loan_balance: Decimal,
    /// Securities lent and sold, in shares.
    pub loan_sell_vol: Decimal,
}

/// The model of a day of margin figures.
pub struct MarginModel {
    pub code: (Seq<char>, Seq<char>),
    pub trade_date: Seq<char>,
    pub fin_balance: (int, nat),
    pub fin_buy_amt: (int, nat),
    pub loan_balance: (int, nat),
    pub loan_sell_vol: (int, nat),
}

impl View for MarginData {
    type V = MarginModel;

    open spec fn view(&self) -> MarginModel {
        MarginModel {
            code: self.code@,
            trade_date: self.trade_date@,
            fin_balance: self.fin_balance@,
            fin_buy_amt: self.fin_buy_amt@,
            loan_balance: self.loan_balance@,
            loan_sell_vol: self.loan_sell_vol@,
        }
    }
}

/// The models of a list of margin figures.
pub open spec fn margins_view(v: Seq<MarginData>) -> Seq<MarginModel> {
    v.map_values(|m: MarginData| m@)
}

/// A block trade.
#[derive(Debug)]
pub struct BlockTrade {
    pub code: String,
    pub name: String,
    pub trade_date: String,
    pub deal_price: Decimal,
    /// Volume in shares.
    pub deal_volume: Decimal,
    pub deal_amt: Decimal,
    /// Premium in percent.
    pub premium_ratio: Option<Decimal>,
    pub buyer_name: String,
    pub seller_name: String,
}

/// An entry of the trading board (dragon-tiger list).
#[derive(Debug)]
pub struct DragonTigerEntry {
    pub code: String,
    pub name: String,
    pub trade_date: String,
    pub close_price: Decimal,
    /// Change in percent.
    pub change_rate: Decimal,
    /// Why the stock is on the board.
    pub explanation: String,
    pub buy_amt: Decimal,
    pub sell_amt: Decimal,
    pub net_buy_amt: Decimal,
    pub deal_amt: Decimal,
}

/// A change of an insider's holding.
#[derive(Debug)]
pub struct InsiderTrade {
    pub code: String,
    pub name: String,
    pub holder_name: String,
    /// Increase or decrease.
    pub direction: String,
    /// Change in ten thousands of shares.
    pub change_num: Decimal,
    /// Change in percent.
    pub change_rate: Option<Decimal>,
    pub end_date: String,
    pub after_holder_num: Option<Decimal>,
}

/// A release of restricted shares.
#[derive(Debug)]
pub struct RestrictedShareRelease {
    pub code: String,
    pub name: String,
    pub free_date: String,
    /// Released shares, in ten thousands.
    pub free_shares: Decimal,
    /// Market value released, in ten thousands of yuan.
    pub free_market_cap: Decimal,
    pub free_type: String,
}

/// Institutional holdings of a stock.
#[derive(Debug)]
pub struct InstitutionHold {
    pub code: String,
    pub name: String,
    /// Fund, QFII, social security, broker, insurer or trust.
    pub org_type: String,
    /// Number of institutions.
    pub hold_num: i32,
    pub total_shares: Decimal,
    pub hold_value: Decimal,
    /// Share of the free float in percent.
    pub free_ratio: Option<Decimal>,
    /// Added, reduced, new or unchanged.
    pub hold_change: String,
    pub report_date: String,
}

} // verus!
