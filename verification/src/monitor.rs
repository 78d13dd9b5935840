//! The decisions of the monitor: trading hours, which alerts fire, and what
//! they say.
use vstd::prelude::*;
use crate::decimal::{Decimal, decimal_format_2dp, format_2dp, value_le, value_lt};
use crate::models::Quote;
use crate::report::IndicatorReport;
use crate::stock::{StockCode, wind_text};
use crate::text::{push_str, same_text};

verus! {

/// Whether a time falls in a trading session: a weekday (Monday is 0; Saturday
/// and Sunday closed), from 09:30:00 to 11:30:00 or from 13:00:00 to 15:00:00,
/// both ends included. The time is seconds from midnight and nanoseconds.
pub open spec fn in_session(weekday: int, secs: int, nanos: int) -> bool {
    let up_to = |end: int| secs < end || (secs == end && nanos == 0);
    &&& weekday != 5 && weekday != 6
    &&& ((34200 <= secs && up_to(41400)) || (46800 <= secs && up_to(54000)))
}

/// Whether the A-share market trades at a time (weekday counted from Monday
/// as 0, seconds from midnight, nanoseconds).
pub fn is_market_hours_at(weekday: u32, secs: u32, nanos: u32) -> (r: bool)
    ensures
        r == in_session(weekday as int, secs as int, nanos as int),
{
    if weekday == 5 || weekday == 6 {
        return false;
    }
    let morning = 34200 <= secs && (secs < 41400 || (secs == 41400 && nanos == 0));
    let afternoon = 46800 <= secs && (secs < 54000 || (secs == 54000 && nanos == 0));
    morning || afternoon
}

/// The kinds of alert rules.
#[derive(Debug, Clone, Copy, PartialEq, Eq)]
pub enum RuleKind {
    /// `price_above`, `price_below`: the quote against a target price.
    Price,
    /// `ma_cross`, `macd_cross`, `kdj_cross`: the indicators of the daily bars.
    Technical,
    /// Anything else: never checked.
    Other,
}

/// The kind of a rule's signal type.
pub open spec fn rule_kind_of(s: Seq<char>) -> RuleKind {
    if s == "price_above"@ || s == "price_below"@ {
        RuleKind::Price
    } else if s == "ma_cross"@ || s == "macd_cross"@ || s == "kdj_cross"@ {
        RuleKind::Technical
    } else {
        RuleKind::Other
    }
}

/// The kind of a rule's signal type.
pub fn rule_kind(signal_type: &str) -> (r: RuleKind)
    ensures
        r == rule_kind_of(signal_type@),
{
    if same_text(signal_type, "price_above") || same_text(signal_type, "price_below") {
        RuleKind::Price
    } else if same_text(signal_type, "ma_cross") || same_text(signal_type, "macd_cross") || same_text(
        signal_type,
        "kdj_cross",
    ) {
        RuleKind::Technical
    } else {
        RuleKind::Other
    }
}

/// A technical rule is checked only with at least 30 daily bars.
pub fn enough_history(bars: usize) -> (r: bool)
    ensures
        r == (bars >= 30),
{
    bars >= 30
}

/// The fast and the slow line a technical rule watches on a report: MA5 and
/// MA20 for `ma_cross`, DIF and DEA for `macd_cross`, K and D for `kdj_cross`;
/// none for another type or where a value is unknown.
pub open spec fn watched_lines(signal_type: Seq<char>, r: IndicatorReport) -> Option<((int, nat), (int, nat))> {
    if signal_type == "ma_cross"@ {
        if r.ma@.len() > 2 && r.ma@[0].value is Some && r.ma@[2].value is Some {
            Some((r.ma@[0].value->0@, r.ma@[2].value->0@))
        } else {
            None
        }
    } else if signal_type == "macd_cross"@ {
        if r.macd.dif is Some && r.macd.dea is Some {
            Some((r.macd.dif->0@, r.macd.dea->0@))
        } else {
            None
        }
    } else if signal_type == "kdj_cross"@ {
        if r.kdj.k is Some && r.kdj.d is Some {
            Some((r.kdj.k->0@, r.kdj.d->0@))
        } else {
            None
        }
    } else {
        None
    }
}

/// Whether a technical rule fires: a golden cross on the last bar, the fast
/// line at or below the slow one on the bar before (`prev`) and above it on
/// the last bar (`last`), with all four values known.
pub open spec fn technical_fires(signal_type: Seq<char>, prev: IndicatorReport, last: IndicatorReport) -> bool {
    match (watched_lines(signal_type, prev), watched_lines(signal_type, last)) {
        (Some((pf, ps)), Some((lf, ls))) => value_le(pf, ps) && value_lt(ls, lf),
        _ => false,
    }
}

/// The fast and the slow line of a technical rule on a report.
fn lines_of(signal_type: &str, report: &IndicatorReport) -> (r: Option<(Decimal, Decimal)>)
    ensures
        match watched_lines(signal_type@, *report) {
            Some((f, sl)) => r matches Some((x, y)) && x@ == f && y@ == sl,
            None => r is None,
        },
{
    if same_text(signal_type, "ma_cross") {
        if report.ma.len() > 2 {
            match (report.ma[0].value, report.ma[2].value) {
                (Some(a), Some(b)) => Some((a, b)),
                _ => None,
            }
        } else {
            None
        }
    } else if same_text(signal_type, "macd_cross") {
        match (report.macd.dif, report.macd.dea) {
            (Some(a), Some(b)) => Some((a, b)),
            _ => None,
        }
    } else if same_text(signal_type, "kdj_cross") {
        match (report.kdj.k, report.kdj.d) {
            (Some(a), Some(b)) => Some((a, b)),
            _ => None,
        }
    } else {
        None
    }
}

/// Whether a technical rule fires, from the reports of the bars up to the
/// one before the last (`prev`) and up to the last (`last`).
pub fn technical_triggered(signal_type: &str, prev: &IndicatorReport, last: &IndicatorReport) -> (r: bool)
    ensures
        r == technical_fires(signal_type@, *prev, *last),
{
    match (lines_of(signal_type, prev), lines_of(signal_type, last)) {
        (Some((pf, ps)), Some((lf, ls))) => pf.le(&ps) && ls.lt(&lf),
        _ => false,
    }
}

/// The message of a fired technical rule: `600519.SH 触发ma_cross信号`.
pub fn technical_alert_message(code: &StockCode, signal_type: &str) -> (r: String)
    ensures
        r@ == wind_text(code@) + " 触发"@ + signal_type@ + "信号"@,
{
    let mut r = code.display_wind();
    push_str(&mut r, " 触发");
    push_str(&mut r, signal_type);
    push_str(&mut r, "信号");
    r
}

/// The message of a fired price rule: the code, the name, `突破` (above) or
/// `跌破` (below), and the target price as written.
pub fn price_alert_message(code: &StockCode, name: &str, above: bool, target: &str) -> (r: String)
    ensures
        r@ == wind_text(code@) + " "@ + name@ + " "@ + (if above {
            "突破"@
        } else {
            "跌破"@
        }) + " 价格"@ + target@,
{
    let mut r = code.display_wind();
    push_str(&mut r, " ");
    push_str(&mut r, name);
    push_str(&mut r, " ");
    push_str(&mut r, if above { "突破" } else { "跌破" });
    push_str(&mut r, " 价格");
    push_str(&mut r, target);
    r
}

/// The alert for a large move of a watched stock: a rise above 3% or a fall
/// below -3%, with the change written with two decimals.
pub open spec fn change_alert_text(q: Quote) -> Option<Seq<char>> {
    if value_lt((3int, 0nat), q.change_pct@) {
        Some(wind_text(q.code@) + " "@ + q.name@ + " 涨幅 "@ + decimal_format_2dp(q.change_pct@) + "%"@)
    } else if value_lt(q.change_pct@, (-3int, 0nat)) {
        Some(wind_text(q.code@) + " "@ + q.name@ + " 跌幅 "@ + decimal_format_2dp(q.change_pct@) + "%"@)
    } else {
        None
    }
}

/// The alert for a large move of a watched stock, if any.
pub fn change_alert(q: &Quote) -> (r: Option<String>)
    ensures
        match change_alert_text(*q) {
            Some(t) => r matches Some(s) && s@ == t,
            None => r is None,
        },
{
    let word = if q.change_pct.gt(&Decimal::from_i64(3)) {
        " 涨幅 "
    } else if q.change_pct.lt(&Decimal::from_i64(-3)) {
        " 跌幅 "
    } else {
        return None;
    };
    let mut r = q.code.display_wind();
    push_str(&mut r, " ");
    push_str(&mut r, q.name.as_str());
    push_str(&mut r, word);
    push_str(&mut r, format_2dp(&q.change_pct).as_str());
    push_str(&mut r, "%");
    Some(r)
}

/// The arrow of a price change: up, down or flat.
pub open spec fn arrow_of(change: (int, nat)) -> Seq<char> {
    if change.0 > 0 {
        "↑"@
    } else if change.0 < 0 {
        "↓"@
    } else {
        "→"@
    }
}

/// The arrow of a price change.
pub fn trend_arrow(change: &Decimal) -> (r: &'static str)
    ensures
        r@ == arrow_of(change@),
{
    if change.is_positive() {
        "↑"
    } else if change.is_negative() {
        "↓"
    } else {
        "→"
    }
}

/// The status line of a watched stock:
/// `[10:31:05] 600519.SH NAME 1372.99 (0.14%) ↑`.
pub fn quote_status_line(now: &str, q: &Quote) -> (r: String)
    ensures
        r@ == "["@ + now@ + "] "@ + wind_text(q.code@) + " "@ + q.name@ + " "@ + decimal_format_2dp(
            q.price@,
        ) + " ("@ + decimal_format_2dp(q.change_pct@) + "%) "@ + arrow_of(q.change@),
{
    let mut r = String::from_str("[");
    push_str(&mut r, now);
    push_str(&mut r, "] ");
    push_str(&mut r, q.code.display_wind().as_str());
    push_str(&mut r, " ");
    push_str(&mut r, q.name.as_str());
    push_str(&mut r, " ");
    push_str(&mut r, format_2dp(&q.price).as_str());
    push_str(&mut r, " (");
    push_str(&mut r, format_2dp(&q.change_pct).as_str());
    push_str(&mut r, "%) ");
    push_str(&mut r, trend_arrow(&q.change));
    r
}

/// The market never trades on Saturday or Sunday, nor over the lunch break
/// (after 11:30 and before 13:00), nor before 09:30 or after 15:00; on a
/// weekday it trades through both sessions, their ends included.
pub proof fn law_trading_hours(weekday: int, secs: int, nanos: int)
    requires
        0 <= nanos,
    ensures
        (weekday == 5 || weekday == 6) ==> !in_session(weekday, secs, nanos),
        (41400 < secs && secs < 46800) ==> !in_session(weekday, secs, nanos),
        (secs < 34200 || secs > 54000) ==> !in_session(weekday, secs, nanos),
        (0 <= weekday <= 4 && ((34200 <= secs && secs < 41400) || (46800 <= secs && secs < 54000)))
            ==> in_session(weekday, secs, nanos),
        (0 <= weekday <= 4 && (secs == 41400 || secs == 54000) && nanos == 0) ==> in_session(weekday, secs, nanos),
{
}

/// A technical rule fires only on a golden cross: its lines are known on both
/// bars, the fast line was at or below the slow one on the bar before and is
/// above it on the last bar. A fast line above the slow one on both bars never
/// fires.
pub proof fn law_technical_needs_a_cross(signal_type: Seq<char>, prev: IndicatorReport, last: IndicatorReport)
    ensures
        technical_fires(signal_type, prev, last) ==> (watched_lines(signal_type, prev) matches Some((pf, ps))
            && value_le(pf, ps)),
        technical_fires(signal_type, prev, last) ==> (watched_lines(signal_type, last) matches Some((lf, ls))
            && value_lt(ls, lf)),
        (watched_lines(signal_type, prev) matches Some((pf, ps)) && value_lt(ps, pf)) ==> !technical_fires(
            signal_type,
            prev,
            last,
        ),
{
}

/// A watched stock raises an alert exactly when its change exceeds 3% either
/// way: a rise above 3% or a fall below -3%.
pub proof fn law_change_alert_threshold(q: Quote)
    ensures
        change_alert_text(q) is Some <==> (value_lt((3int, 0nat), q.change_pct@) || value_lt(
            q.change_pct@,
            (-3int, 0nat),
        )),
{
}

} // verus!
