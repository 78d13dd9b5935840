//! The data receiver: what the browser extension pushes, how it becomes the
//! library's records, and the replies.
use vstd::prelude::*;
use crate::decimal::{Decimal, decimal_parse_result, opt_view, parse_decimal, parse_decimal_or_zero, parse_or_zero};
use crate::kline::{naive_date_parse, parse_date_with};
use crate::models::{Bar, BarModel, MoneyFlow, OrderBookSnapshot, Quote, QuoteModel, TickTrade, opt_text};
use crate::stock::{StockCode, api_text, parse_stock_code, wind_text};
use crate::store::{WatchItem, level_price, level_volume, price_levels, volume_levels};
use crate::text::{decimal_digits, push_decimal, push_str, same_text};

verus! {

/// A push: where the data comes from, when, and the data.
#[derive(Debug)]
pub struct PushRequest<T> {
    pub source: String,
    pub timestamp: Option<String>,
    pub data: T,
}

/// A pushed quote; figures are decimal texts.
#[derive(Debug)]
pub struct QuoteData {
    pub code: String,
    pub name: Option<String>,
    pub price: String,
    pub prev_close: Option<String>,
    pub open: Option<String>,
    pub high: Option<String>,
    pub low: Option<String>,
    pub volume: Option<i64>,
    pub turnover: Option<String>,
    pub bid: Option<String>,
    pub ask: Option<String>,
    pub bid_vol: Option<i64>,
    pub ask_vol: Option<i64>,
    pub change: Option<String>,
    pub change_pct: Option<String>,
    pub high_limit: Option<String>,
    pub low_limit: Option<String>,
    pub inner_vol: Option<i64>,
    pub outer_vol: Option<i64>,
    pub open_vol: Option<i64>,
    pub time: Option<String>,
    pub update_time: Option<String>,
    pub stock_status: Option<String>,
}

/// A pushed K-line bar.
#[derive(Debug)]
pub struct KlineEntry {
    pub code: String,
    pub date: String,
    pub open: String,
    pub close: String,
    pub high: String,
    pub low: String,
    pub volume: Option<i64>,
    pub turnover: Option<String>,
}

/// Pushed K-line bars.
#[derive(Debug)]
pub struct KlineBatchData {
    pub bars: Vec<KlineEntry>,
}

/// A pushed trade of the tick record.
#[derive(Debug)]
pub struct TickEntry {
    pub id: Option<String>,
    pub code: String,
    pub trade_time: String,
    pub price: String,
    pub volume: i64,
    pub direction: Option<String>,
}

/// Pushed trades of the tick record.
#[derive(Debug)]
pub struct TickBatchData {
    pub ticks: Vec<TickEntry>,
}

/// A pushed order book.
#[derive(Debug)]
pub struct OrderBookData {
    pub code: String,
    pub snap_time: String,
    pub bid_prices: Vec<String>,
    pub bid_volumes: Vec<i64>,
    pub ask_prices: Vec<String>,
    pub ask_volumes: Vec<i64>,
}

/// A pushed day of money flow.
#[derive(Debug)]
pub struct MoneyFlowData {
    pub code: String,
    pub trade_date: String,
    pub main_inflow: String,
    pub main_outflow: String,
    pub main_net: String,
    pub retail_inflow: String,
    pub retail_outflow: String,
    pub retail_net: String,
}

/// The reply to a push.
#[derive(Debug)]
pub struct ApiResponse {
    pub status: String,
    pub message: Option<String>,
}

impl ApiResponse {
    /// Success without a message.
    pub fn ok() -> (r: ApiResponse)
        ensures
            r.status@ == "ok"@,
            r.message is None,
    {
        ApiResponse { status: String::from_str("ok"), message: None }
    }

    /// Failure with a message.
    pub fn error(msg: &str) -> (r: ApiResponse)
        ensures
            r.status@ == "error"@,
            r.message matches Some(m) && m@ == msg@,
    {
        ApiResponse { status: String::from_str("error"), message: Some(String::from_str(msg)) }
    }
}

/// The reply to a batch push: success, and how many records were saved
/// (`保存3条K线`).
pub fn saved_response(count: usize, unit: &str) -> (r: ApiResponse)
    ensures
        r.status@ == "ok"@,
        r.message matches Some(m) && m@ == "保存"@ + decimal_digits(count as nat) + unit@,
{
    let mut m = String::from_str("保存");
    push_decimal(&mut m, count as u64);
    push_str(&mut m, unit);
    ApiResponse { status: String::from_str("ok"), message: Some(m) }
}

/// The receiver's status.
#[derive(Debug)]
pub struct StatusResponse {
    pub status: String,
    pub version: String,
    pub uptime_secs: u64,
}

/// The status reply: running, version 0.1.0, and the uptime.
pub fn status_response(uptime_secs: u64) -> (r: StatusResponse)
    ensures
        r.status@ == "ok"@,
        r.version@ == "0.1.0"@,
        r.uptime_secs == uptime_secs,
{
    StatusResponse { status: String::from_str("ok"), version: String::from_str("0.1.0"), uptime_secs }
}

/// A stock of the watch list as the receiver lists it.
#[derive(Debug)]
pub struct WatchlistEntry {
    pub code: String,
    pub name: String,
}

/// The watch list as the receiver lists it.
pub fn watchlist_entries(items: &Vec<WatchItem>) -> (r: Vec<WatchlistEntry>)
    ensures
        r@.len() == items@.len(),
        forall|i: int|
            0 <= i < items@.len() ==> (#[trigger] r@[i]).code@ == items@[i].code@ && r@[i].name@
                == items@[i].name@,
{
    let mut out: Vec<WatchlistEntry> = Vec::new();
    for i in 0..items.len()
        invariant
            out@.len() == i,
            forall|k: int|
                0 <= k < i ==> (#[trigger] out@[k]).code@ == items@[k].code@ && out@[k].name@
                    == items@[k].name@,
    {
        out.push(WatchlistEntry { code: items[i].code.clone(), name: items[i].name.clone() });
    }
    out
}

/// An optional figure: its decimal reading, zero where missing or unreadable.
pub open spec fn opt_figure(s: Option<String>) -> (int, nat) {
    match s {
        Some(t) => parse_or_zero(t@),
        None => (0int, 0nat),
    }
}

/// An optional limit price: its decimal reading where it reads.
pub open spec fn opt_limit(s: Option<String>) -> Option<(int, nat)> {
    match s {
        Some(t) => decimal_parse_result(t@),
        None => None,
    }
}

/// An optional text, empty where missing.
pub open spec fn text_or_empty(s: Option<String>) -> Seq<char> {
    match s {
        Some(t) => t@,
        None => Seq::empty(),
    }
}

/// The quote a push gives, where its code is valid.
pub open spec fn pushed_quote(d: QuoteData) -> Option<QuoteModel> {
    match parse_stock_code(d.code@) {
        Err(_) => None,
        Ok(code) => Some(
            QuoteModel {
                code,
                name: text_or_empty(d.name),
                price: parse_or_zero(d.price@),
                prev_close: opt_figure(d.prev_close),
                open: opt_figure(d.open),
                high: opt_figure(d.high),
                low: opt_figure(d.low),
                volume: match d.volume {
                    Some(v) => v as int,
                    None => 0,
                },
                turnover: opt_figure(d.turnover),
                bid: opt_figure(d.bid),
                ask: opt_figure(d.ask),
                bid_vol: d.bid_vol,
                ask_vol: d.ask_vol,
                change: opt_figure(d.change),
                change_pct: opt_figure(d.change_pct),
                high_limit: opt_limit(d.high_limit),
                low_limit: opt_limit(d.low_limit),
                inner_vol: d.inner_vol,
                outer_vol: d.outer_vol,
                open_vol: d.open_vol,
                time: text_or_empty(d.time),
                update_time: opt_text(d.update_time),
                stock_status: opt_text(d.stock_status),
            },
        ),
    }
}

fn figure(s: &Option<String>) -> (r: Decimal)
    ensures
        r@ == opt_figure(*s),
{
    match s {
        Some(t) => parse_decimal_or_zero(t.as_str()),
        None => Decimal::zero(),
    }
}

fn limit(s: &Option<String>) -> (r: Option<Decimal>)
    ensures
        opt_view(r) == opt_limit(*s),
{
    match s {
        Some(t) => parse_decimal(t.as_str()),
        None => None,
    }
}

fn text_or_default(s: &Option<String>) -> (r: String)
    ensures
        r@ == text_or_empty(*s),
{
    match s {
        Some(t) => t.clone(),
        None => String::new(),
    }
}

fn clone_opt(s: &Option<String>) -> (r: Option<String>)
    ensures
        opt_text(r) == opt_text(*s),
{
    match s {
        Some(t) => Some(t.clone()),
        None => None,
    }
}

/// The quote of a push; `None` where its code is invalid (the reply is then
/// `无效股票代码`).
pub fn quote_from_data(d: &QuoteData) -> (r: Option<Quote>)
    ensures
        match pushed_quote(*d) {
            None => r is None,
            Some(q) => r matches Some(x) && x@ == q,
        },
{
    let code = match StockCode::from_raw(d.code.as_str()) {
        Ok(c) => c,
        Err(_) => {
            return None;
        },
    };
    Some(
        Quote {
            code,
            name: text_or_default(&d.name),
            price: parse_decimal_or_zero(d.price.as_str()),
            prev_close: figure(&d.prev_close),
            open: figure(&d.open),
            high: figure(&d.high),
            low: figure(&d.low),
            volume: match d.volume {
                Some(v) => v,
                None => 0,
            },
            turnover: figure(&d.turnover),
            bid: figure(&d.bid),
            ask: figure(&d.ask),
            bid_vol: d.bid_vol,
            ask_vol: d.ask_vol,
            change: figure(&d.change),
            change_pct: figure(&d.change_pct),
            high_limit: limit(&d.high_limit),
            low_limit: limit(&d.low_limit),
            inner_vol: d.inner_vol,
            outer_vol: d.outer_vol,
            open_vol: d.open_vol,
            time: text_or_default(&d.time),
            update_time: clone_opt(&d.update_time),
            stock_status: clone_opt(&d.stock_status),
        },
    )
}

/// The bar of a pushed entry, where its code is valid and its date is a
/// `YYYY-MM-DD` date; a missing turnover reads as `"0"`.
pub open spec fn pushed_bar(e: KlineEntry) -> Option<BarModel> {
    match (parse_stock_code(e.code@), naive_date_parse(e.date@, "%Y-%m-%d"@)) {
        (Ok(code), Some(date)) => Some(
            BarModel {
                code,
                date,
                open: parse_or_zero(e.open@),
                close: parse_or_zero(e.close@),
                high: parse_or_zero(e.high@),
                low: parse_or_zero(e.low@),
                volume: match e.volume {
                    Some(v) => v as int,
                    None => 0,
                },
                turnover: parse_or_zero(
                    match e.turnover {
                        Some(t) => t@,
                        None => "0"@,
                    },
                ),
            },
        ),
        _ => None,
    }
}

/// The bars of a list of pushed entries, in order, leaving out the invalid ones.
pub open spec fn pushed_bars(es: Seq<KlineEntry>) -> Seq<BarModel>
    decreases es.len(),
{
    if es.len() == 0 {
        Seq::empty()
    } else {
        match pushed_bar(es.last()) {
            Some(b) => pushed_bars(es.drop_last()).push(b),
            None => pushed_bars(es.drop_last()),
        }
    }
}

fn bar_from_entry(e: &KlineEntry) -> (r: Option<Bar>)
    ensures
        match pushed_bar(*e) {
            None => r is None,
            Some(b) => r matches Some(x) && x@ == b,
        },
{
    let code = match StockCode::from_raw(e.code.as_str()) {
        Ok(c) => c,
        Err(_) => {
            return None;
        },
    };
    let date = match parse_date_with(e.date.as_str(), "%Y-%m-%d") {
        Some(d) => d,
        None => {
            return None;
        },
    };
    let turnover = match &e.turnover {
        Some(t) => parse_decimal_or_zero(t.as_str()),
        None => parse_decimal_or_zero("0"),
    };
    Some(
        Bar {
            code,
            date,
            open: parse_decimal_or_zero(e.open.as_str()),
            close: parse_decimal_or_zero(e.close.as_str()),
            high: parse_decimal_or_zero(e.high.as_str()),
            low: parse_decimal_or_zero(e.low.as_str()),
            volume: match e.volume {
                Some(v) => v,
                None => 0,
            },
            turnover,
        },
    )
}

/// The bars of a K-line push.
pub fn bars_from_entries(entries: &Vec<KlineEntry>) -> (r: Vec<Bar>)
    ensures
        crate::models::bars_view(r@) == pushed_bars(entries@),
{
    let mut bars: Vec<Bar> = Vec::new();
    let mut i: usize = 0;
    assert(entries@.take(0) =~= Seq::<KlineEntry>::empty());
    assert(crate::models::bars_view(bars@) =~= Seq::<BarModel>::empty());
    while i < entries.len()
        invariant
            0 <= i <= entries@.len(),
            crate::models::bars_view(bars@) == pushed_bars(entries@.take(i as int)),
        decreases entries.len() - i,
    {
        assert(entries@.take(i + 1).drop_last() =~= entries@.take(i as int));
        assert(entries@.take(i + 1).last() == entries@[i as int]);
        match bar_from_entry(&entries[i]) {
            Some(b) => {
                let ghost before = bars@;
                bars.push(b);
                assert(crate::models::bars_view(bars@) =~= crate::models::bars_view(before).push(b@));
            },
            None => {},
        }
        i += 1;
    }
    assert(entries@.take(i as int) =~= entries@);
    bars
}

/// Whether a pushed trade has a valid code (the others are left out).
pub open spec fn tick_code_valid(e: TickEntry) -> bool {
    parse_stock_code(e.code@) is Ok
}

/// The pushed trades that have a valid code, in order.
pub open spec fn valid_ticks(es: Seq<TickEntry>) -> Seq<TickEntry>
    decreases es.len(),
{
    if es.len() == 0 {
        Seq::empty()
    } else if tick_code_valid(es.last()) {
        valid_ticks(es.drop_last()).push(es.last())
    } else {
        valid_ticks(es.drop_last())
    }
}

/// How a trade of the tick record is read from a pushed one: the direction is
/// `neutral` where none is given, the source is the push's.
pub open spec fn tick_of_entry(t: TickTrade, e: TickEntry, source: Seq<char>) -> bool {
    &&& t.tick_id == e.id
    &&& parse_stock_code(e.code@) == Ok::<(Seq<char>, Seq<char>), Seq<char>>(t.code@)
    &&& t.trade_time@ == e.trade_time@
    &&& t.price@ == parse_or_zero(e.price@)
    &&& t.volume == e.volume
    &&& t.direction@ == (match e.direction {
        Some(d) => d@,
        None => "neutral"@,
    })
    &&& t.source@ == source
}

/// The trades of a tick push.
pub fn ticks_from_entries(entries: &Vec<TickEntry>, source: &str) -> (r: Vec<TickTrade>)
    ensures
        r@.len() == valid_ticks(entries@).len(),
        forall|i: int| 0 <= i < r@.len() ==> tick_of_entry(#[trigger] r@[i], valid_ticks(entries@)[i], source@),
{
    let mut out: Vec<TickTrade> = Vec::new();
    let mut i: usize = 0;
    assert(entries@.take(0) =~= Seq::<TickEntry>::empty());
    while i < entries.len()
        invariant
            0 <= i <= entries@.len(),
            out@.len() == valid_ticks(entries@.take(i as int)).len(),
            forall|k: int|
                0 <= k < out@.len() ==> tick_of_entry(#[trigger] out@[k], valid_ticks(entries@.take(i as int))[k], source@),
        decreases entries.len() - i,
    {
        let e = &entries[i];
        assert(entries@.take(i + 1).drop_last() =~= entries@.take(i as int));
        assert(entries@.take(i + 1).last() == entries@[i as int]);
        match StockCode::from_raw(e.code.as_str()) {
            Ok(code) => {
                let direction = match &e.direction {
                    Some(d) => d.clone(),
                    None => String::from_str("neutral"),
                };
                out.push(
                    TickTrade {
                        tick_id: e.id.clone(),
                        code,
                        trade_time: e.trade_time.clone(),
                        price: parse_decimal_or_zero(e.price.as_str()),
                        volume: e.volume,
                        direction,
                        source: String::from_str(source),
                    },
                );
            },
            Err(_) => {},
        }
        i += 1;
    }
    assert(entries@.take(i as int) =~= entries@);
    out
}

/// The order book of a push, where its code is valid: five levels per side.
pub fn order_book_from_data(d: &OrderBookData, source: &str) -> (r: Option<OrderBookSnapshot>)
    ensures
        match parse_stock_code(d.code@) {
            Err(_) => r is None,
            Ok(code) => r matches Some(ob) && {
                &&& ob.code@ == code
                &&& ob.snap_time@ == d.snap_time@
                &&& ob.source@ == source@
                &&& forall|i: int|
                    0 <= i < 5 ==> (#[trigger] ob.bid_prices@[i])@ == level_price(d.bid_prices@, i)
                        && ob.bid_volumes@[i] == level_volume(d.bid_volumes@, i)
                        && ob.ask_prices@[i]@ == level_price(d.ask_prices@, i)
                        && ob.ask_volumes@[i] == level_volume(d.ask_volumes@, i)
            },
        },
{
    let code = match StockCode::from_raw(d.code.as_str()) {
        Ok(c) => c,
        Err(_) => {
            return None;
        },
    };
    Some(
        OrderBookSnapshot {
            code,
            snap_time: d.snap_time.clone(),
            bid_prices: price_levels(&d.bid_prices),
            bid_volumes: volume_levels(&d.bid_volumes),
            ask_prices: price_levels(&d.ask_prices),
            ask_volumes: volume_levels(&d.ask_volumes),
            source: String::from_str(source),
        },
    )
}

/// The money flow of a push, where its code is valid; figures that do not
/// parse count as zero.
pub fn money_flow_from_data(d: &MoneyFlowData, source: &str) -> (r: Option<MoneyFlow>)
    ensures
        match parse_stock_code(d.code@) {
            Err(_) => r is None,
            Ok(code) => r matches Some(f) && {
                &&& f.code@ == code
                &&& f.trade_date@ == d.trade_date@
                &&& f.main_inflow@ == parse_or_zero(d.main_inflow@)
                &&& f.main_outflow@ == parse_or_zero(d.main_outflow@)
                &&& f.main_net@ == parse_or_zero(d.main_net@)
                &&& f.retail_inflow@ == parse_or_zero(d.retail_inflow@)
                &&& f.retail_outflow@ == parse_or_zero(d.retail_outflow@)
                &&& f.retail_net@ == parse_or_zero(d.retail_net@)
                &&& f.source@ == source@
            },
        },
{
    let code = match StockCode::from_raw(d.code.as_str()) {
        Ok(c) => c,
        Err(_) => {
            return None;
        },
    };
    Some(
        MoneyFlow {
            code,
            trade_date: d.trade_date.clone(),
            main_inflow: parse_decimal_or_zero(d.main_inflow.as_str()),
            main_outflow: parse_decimal_or_zero(d.main_outflow.as_str()),
            main_net: parse_decimal_or_zero(d.main_net.as_str()),
            retail_inflow: parse_decimal_or_zero(d.retail_inflow.as_str()),
            retail_outflow: parse_decimal_or_zero(d.retail_outflow.as_str()),
            retail_net: parse_decimal_or_zero(d.retail_net.as_str()),
            source: String::from_str(source),
        },
    )
}

/// Whether an alert rule is about the stock of a quote.
pub fn rule_is_for(rule_code: &str, q: &Quote) -> (r: bool)
    ensures
        r == (rule_code@ == api_text(q.code@)),
{
    same_text(rule_code, q.code.for_api().as_str())
}

/// The message of a price alert raised on a push: the code, the name,
/// `突破价格` (above) or `跌破价格` (below) and the target as written.
pub fn pushed_price_alert(q: &Quote, above: bool, target: &str) -> (r: String)
    ensures
        r@ == wind_text(q.code@) + " "@ + q.name@ + (if above {
            " 突破价格"@
        } else {
            " 跌破价格"@
        }) + target@,
{
    let mut r = q.code.display_wind();
    push_str(&mut r, " ");
    push_str(&mut r, q.name.as_str());
    push_str(&mut r, if above { " 突破价格" } else { " 跌破价格" });
    push_str(&mut r, target);
    r
}

} // verus!
