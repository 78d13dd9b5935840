//! The local store's logic: how positions change on a trade, how a trade's
//! fees break down, the query texts, and how stored rows read back.
use vstd::prelude::*;
use crate::costs::{
    amount_of, below_min_commission, buy_cost_of, buy_cost_value, calc_buy_cost, calc_sell_cost, exact_cost_range,
    lemma_range_facts, sell_cost_of, sell_cost_value, stamp_tax_rate, transfer_fee_rate,
};
use crate::decimal::{
    Decimal, decimal_add_result, decimal_div_result, decimal_mul_result, decimal_sub_result,
    exact_add, exact_mul, exact_sub, fits, lemma_pow10_positive, parse_decimal_or_zero, parse_or_zero,
    same_value, sub_result_rep, MAX_MANTISSA, MAX_SCALE, pow10,
};
use crate::kline::{naive_date_parse, parse_date_with};
use crate::models::{Bar, BarModel, MoneyFlow, OrderBookSnapshot, TickTrade};
use crate::stock::{StockCode, api_text, parse_stock_code};
use crate::text::{decimal_digits, push_decimal, push_str, same_text, to_uppercase, unicode_uppercase};

verus! {

// ─── Positions ──────────────────────────────────────────

/// How a trade changes the stored position of a stock.
#[derive(Debug)]
pub enum PositionChange {
    /// A new position.
    Insert { shares: i64, avg_cost: Decimal },
    /// The position's shares and average cost become these.
    Update { shares: i64, avg_cost: Decimal },
    /// The position keeps its cost and has this many shares left.
    Reduce { shares: i64 },
    /// The position is sold out and removed.
    Close,
    /// There was no position to sell from.
    Missing,
}

/// The average cost after buying `shares` at `price` into a position of
/// `old` shares at `avg`: `(avg * old + price * shares) / (old + shares)`
/// with `rust_decimal`'s operations; `None` where one of them overflows.
pub open spec fn avg_cost_after(old: int, avg: (int, nat), shares: int, price: (int, nat)) -> Option<(int, nat)> {
    match (decimal_mul_result(avg, (old, 0nat)), decimal_mul_result(price, (shares, 0nat))) {
        (Some(a), Some(b)) => match decimal_add_result(a, b) {
            Some(s) => decimal_div_result(s, (old + shares, 0nat)),
            None => None,
        },
        _ => None,
    }
}

/// The position after a purchase, as (whether it is new, shares, average cost):
/// without a position, a new one at the price; with one, the shares add up and,
/// while positive, the cost is the weighted average (otherwise the price).
/// `None` where the arithmetic overflows.
pub open spec fn buy_change_of(existing: Option<(i64, (int, nat))>, shares: i64, price: (int, nat)) -> Option<(bool, int, (int, nat))> {
    match existing {
        None => Some((true, shares as int, price)),
        Some((old, avg)) => {
            let n = old + shares;
            if !(i64::MIN <= n <= i64::MAX) {
                None
            } else if n > 0 {
                match avg_cost_after(old as int, avg, shares as int, price) {
                    None => None,
                    Some(c) => Some((false, n, c)),
                }
            } else {
                Some((false, n, price))
            }
        },
    }
}

/// The position after a sale: missing without a position, closed where no
/// shares remain, reduced otherwise; `None` where the subtraction overflows.
pub open spec fn sell_change_of(existing: Option<i64>, shares: i64) -> Option<PositionChange> {
    match existing {
        None => Some(PositionChange::Missing),
        Some(old) => {
            let n = old - shares;
            if !(i64::MIN <= n <= i64::MAX) {
                None
            } else if n <= 0 {
                Some(PositionChange::Close)
            } else {
                Some(PositionChange::Reduce { shares: n as i64 })
            }
        },
    }
}

/// Opening a position and then selling as many shares as were bought closes
/// it; selling fewer keeps the rest.
pub proof fn law_position_round_trip(bought: i64, sold: i64, price: Decimal)
    requires
        0 < bought,
        0 < sold,
    ensures
        buy_change_of(None, bought, price@) == Some((true, bought as int, price@)),
        sold >= bought ==> sell_change_of(Some(bought), sold) == Some(PositionChange::Close),
        sold < bought ==> sell_change_of(Some(bought), sold) == Some(
            PositionChange::Reduce { shares: (bought - sold) as i64 },
        ),
{
}

/// The position after a purchase. Without a position, a new one at the price.
/// With one, the shares add up and, while positive, the cost is the weighted
/// average (otherwise the price). `None` where the arithmetic overflows.
pub fn position_after_buy(existing: Option<(i64, Decimal)>, shares: i64, price: Decimal) -> (r: Option<PositionChange>)
    ensures
        match buy_change_of(
            match existing {
                Some((n, c)) => Some((n, c@)),
                None => None,
            },
            shares,
            price@,
        ) {
            None => r is None,
            Some((true, n, c)) => r matches Some(PositionChange::Insert { shares: m, avg_cost: d }) && m == n
                && d@ == c,
            Some((false, n, c)) => r matches Some(PositionChange::Update { shares: m, avg_cost: d }) && m == n
                && d@ == c,
        },
{
    match existing {
        None => Some(PositionChange::Insert { shares, avg_cost: price }),
        Some((old, avg)) => {
            if (shares > 0 && old > i64::MAX - shares) || (shares < 0 && old < i64::MIN - shares) {
                return None;
            }
            let n = old + shares;
            if n > 0 {
                let a = avg.checked_mul(&Decimal::from_i64(old));
                let b = price.checked_mul(&Decimal::from_i64(shares));
                match (a, b) {
                    (Some(a), Some(b)) => match a.checked_add(&b) {
                        Some(s) => match s.checked_div(&Decimal::from_i64(n)) {
                            Some(c) => Some(PositionChange::Update { shares: n, avg_cost: c }),
                            None => None,
                        },
                        None => None,
                    },
                    _ => None,
                }
            } else {
                Some(PositionChange::Update { shares: n, avg_cost: price })
            }
        },
    }
}

/// The position after a sale: missing without a position, closed where no
/// shares remain, reduced otherwise. `None` where the subtraction overflows.
pub fn position_after_sell(existing: Option<i64>, shares: i64) -> (r: Option<PositionChange>)
    ensures
        r == sell_change_of(existing, shares),
{
    match existing {
        None => Some(PositionChange::Missing),
        Some(old) => {
            if (shares < 0 && old > i64::MAX + shares) || (shares > 0 && old < i64::MIN + shares) {
                return None;
            }
            let n = old - shares;
            if n <= 0 {
                Some(PositionChange::Close)
            } else {
                Some(PositionChange::Reduce { shares: n })
            }
        },
    }
}

/// A stored position.
#[derive(Debug)]
pub struct PositionRecord {
    pub code: String,
    pub name: String,
    pub shares: i64,
    pub avg_cost: Decimal,
    /// Filled from a live quote; zero as stored.
    pub current_price: Decimal,
}

/// Reads a stored position; a cost that does not parse counts as zero.
pub fn position_from_row(code: String, name: String, shares: i64, avg_cost: &str) -> (r: PositionRecord)
    ensures
        r.code@ == code@,
        r.name@ == name@,
        r.shares == shares,
        r.avg_cost@ == parse_or_zero(avg_cost@),
        r.current_price@ == (0int, 0nat),
{
    PositionRecord { code, name, shares, avg_cost: parse_decimal_or_zero(avg_cost), current_price: Decimal::zero() }
}

// ─── Trades ─────────────────────────────────────────────

/// What a trade costs: its amount, the fees and their total.
#[derive(Debug, Clone, Copy)]
pub struct TradeCosts {
    pub amount: Decimal,
    pub commission: Decimal,
    pub stamp_tax: Decimal,
    pub transfer_fee: Decimal,
    pub total_cost: Decimal,
}

/// The model of trade costs: amount, commission, stamp tax, transfer fee, total.
pub open spec fn costs_view(c: TradeCosts) -> ((int, nat), (int, nat), (int, nat), (int, nat), (int, nat)) {
    (c.amount@, c.commission@, c.stamp_tax@, c.transfer_fee@, c.total_cost@)
}

/// The costs of a trade. A purchase pays the commission and the transfer fee
/// (0.001% of the amount); a sale also the stamp tax (0.05%). The commission is
/// the total less the other fees. Another action costs nothing. `None` where a
/// step overflows.
pub open spec fn trade_costs_of(action: Seq<char>, price: (int, nat), shares: int) -> Option<
    ((int, nat), (int, nat), (int, nat), (int, nat), (int, nat)),
> {
    let zero = (0int, 0nat);
    match amount_of(price, shares) {
        None => None,
        Some(a) => if action == "BUY"@ {
            match (buy_cost_of(price, shares), decimal_mul_result(a, transfer_fee_rate())) {
                (Some(t), Some(tf)) => match decimal_sub_result(t, tf) {
                    Some(c) => Some((a, c, zero, tf, t)),
                    None => None,
                },
                _ => None,
            }
        } else if action == "SELL"@ {
            match (
                sell_cost_of(price, shares),
                decimal_mul_result(a, stamp_tax_rate()),
                decimal_mul_result(a, transfer_fee_rate()),
            ) {
                (Some(t), Some(st), Some(tf)) => match decimal_sub_result(t, st) {
                    Some(c1) => match decimal_sub_result(c1, tf) {
                        Some(c) => Some((a, c, st, tf, t)),
                        None => None,
                    },
                    None => None,
                },
                _ => None,
            }
        } else {
            Some((a, zero, zero, zero, zero))
        },
    }
}

proof fn lemma_buy_breakdown(total: (int, nat), tf: (int, nat), a: int, sc: nat, com: int)
    requires
        total == (com + a, (sc + 5) as nat),
        tf == (a, (sc + 5) as nat),
        0 < a,
        0 < com <= MAX_MANTISSA,
        sc + 5 <= MAX_SCALE,
    ensures
        fits(exact_sub(total, tf)),
        sub_result_rep(total, tf) == (com, (sc + 5) as nat),
        exact_add(exact_add((com, (sc + 5) as nat), (0int, 0nat)), tf) == total,
        same_value(tf, exact_mul((a, sc), transfer_fee_rate())),
{
    reveal_with_fuel(pow10, 1);
    let one = pow10(0);
    assert(one == 1);
    assert((com + a) * one == com + a && a * one == a && com * one == com) by (nonlinear_arith)
        requires
            one == 1,
    ;
    assert(0 * pow10((sc + 5) as nat) == 0);
    assert(((sc + 5) - (sc + 5)) as nat == 0);
}

proof fn lemma_sell_breakdown(total: (int, nat), st: (int, nat), tf: (int, nat), a: int, sc: nat, com: int)
    requires
        total == (com + 51 * a, (sc + 5) as nat),
        st == (5 * a, (sc + 4) as nat),
        tf == (a, (sc + 5) as nat),
        0 < a,
        0 < com,
        com + a <= MAX_MANTISSA,
        sc + 5 <= MAX_SCALE,
    ensures
        fits(exact_sub(total, st)),
        sub_result_rep(total, st) == (com + a, (sc + 5) as nat),
        fits(exact_sub((com + a, (sc + 5) as nat), tf)),
        sub_result_rep((com + a, (sc + 5) as nat), tf) == (com, (sc + 5) as nat),
        exact_add(exact_add((com, (sc + 5) as nat), st), tf) == total,
        same_value(tf, exact_mul((a, sc), transfer_fee_rate())),
        same_value(st, exact_mul((a, sc), stamp_tax_rate())),
{
    reveal_with_fuel(pow10, 2);
    let one = pow10(0);
    let ten = pow10(1);
    assert(one == 1 && ten == 10);
    assert((com + 51 * a) * one == com + 51 * a && (5 * a) * ten == 50 * a && (com + a) * one == com + a
        && a * one == a && com * one == com && (com + 50 * a) * one == com + 50 * a) by (nonlinear_arith)
        requires
            one == 1,
            ten == 10,
    ;
    assert(((sc + 5) - (sc + 4)) as nat == 1);
    assert(((sc + 5) - (sc + 5)) as nat == 0);
}

/// The fees add up to the total cost.
pub open spec fn fees_add_up(c: TradeCosts) -> bool {
    same_value(exact_add(exact_add(c.commission@, c.stamp_tax@), c.transfer_fee@), c.total_cost@)
}

/// The costs of a trade (see `trade_costs_of`). Where every step is exact
/// (`exact_cost_range`), a purchase or sale is never refused, its fees add up to
/// its total, the transfer fee is 0.001% of the amount, and the stamp tax is
/// 0.05% of it on a sale and nothing on a purchase.
pub fn trade_costs(action: &str, price: Decimal, shares: i64) -> (r: Option<TradeCosts>)
    ensures
        match trade_costs_of(action@, price@, shares as int) {
            None => r is None,
            Some(c) => r matches Some(x) && costs_view(x) == c,
        },
        exact_cost_range(price@, shares as int) && (action@ == "BUY"@ || action@ == "SELL"@) ==> (
        r matches Some(c) && {
            &&& fees_add_up(c)
            &&& same_value(c.transfer_fee@, exact_mul(c.amount@, transfer_fee_rate()))
            &&& action@ == "SELL"@ ==> same_value(c.stamp_tax@, exact_mul(c.amount@, stamp_tax_rate()))
            &&& action@ == "BUY"@ ==> c.stamp_tax@.0 == 0
        }),
{
    proof {
        if exact_cost_range(price@, shares as int) {
            lemma_range_facts(price@, shares as int);
        }
        reveal_strlit("BUY");
        reveal_strlit("SELL");
        assert("BUY"@.len() != "SELL"@.len());
    }
    let amount = match price.checked_mul(&Decimal::from_i64(shares)) {
        Some(a) => a,
        None => {
            return None;
        },
    };
    let transfer_rate = Decimal::new(1, 5);
    let stamp_rate = Decimal::new(5, 4);
    if same_text(action, "BUY") {
        let total = match calc_buy_cost(price, shares) {
            Some(t) => t,
            None => {
                return None;
            },
        };
        let tf = match amount.checked_mul(&transfer_rate) {
            Some(x) => x,
            None => {
                return None;
            },
        };
        proof {
            if exact_cost_range(price@, shares as int) {
                let a = price@.0 * shares;
                let sc = price@.1;
                lemma_pow10_positive(sc + 5);
                assert(amount@ == (a, sc));
                assert(tf@ == (a, (sc + 5) as nat));
                assert(total@ == buy_cost_value(price@, shares as int));
                let com = total@.0 - a;
                if below_min_commission(price@, shares as int) {
                    assert(com == 5 * pow10(sc + 5));
                } else {
                    assert(com == 30 * a);
                }
                lemma_buy_breakdown(total@, tf@, a, sc, com);
            }
        }
        match total.checked_sub(&tf) {
            Some(c) => {
                let costs = TradeCosts {
                    amount,
                    commission: c,
                    stamp_tax: Decimal::zero(),
                    transfer_fee: tf,
                    total_cost: total,
                };

                Some(costs)
            },
            None => None,
        }
    } else if same_text(action, "SELL") {
        let total = match calc_sell_cost(price, shares) {
            Some(t) => t,
            None => {
                return None;
            },
        };
        let st = match amount.checked_mul(&stamp_rate) {
            Some(x) => x,
            None => {
                return None;
            },
        };
        let tf = match amount.checked_mul(&transfer_rate) {
            Some(x) => x,
            None => {
                return None;
            },
        };
        proof {
            if exact_cost_range(price@, shares as int) {
                let a = price@.0 * shares;
                let sc = price@.1;
                lemma_pow10_positive(sc + 5);
                assert(amount@ == (a, sc));
                assert(tf@ == (a, (sc + 5) as nat));
                assert(st@ == (5 * a, (sc + 4) as nat));
                assert(total@ == sell_cost_value(price@, shares as int));
                let com = total@.0 - 51 * a;
                if below_min_commission(price@, shares as int) {
                    assert(com == 5 * pow10(sc + 5));
                } else {
                    assert(com == 30 * a);
                }
                lemma_sell_breakdown(total@, st@, tf@, a, sc, com);
            }
        }
        let c1 = match total.checked_sub(&st) {
            Some(x) => x,
            None => {
                return None;
            },
        };
        match c1.checked_sub(&tf) {
            Some(c) => {
                let costs = TradeCosts { amount, commission: c, stamp_tax: st, transfer_fee: tf, total_cost: total };

                Some(costs)
            },
            None => None,
        }
    } else {
        Some(
            TradeCosts {
                amount,
                commission: Decimal::zero(),
                stamp_tax: Decimal::zero(),
                transfer_fee: Decimal::zero(),
                total_cost: Decimal::zero(),
            },
        )
    }
}

/// A stored trade.
#[derive(Debug)]
pub struct TradeRecord {
    pub id: i64,
    pub code: String,
    pub action: String,
    pub price: Decimal,
    pub shares: i64,
    pub amount: Decimal,
    pub commission: Decimal,
    pub stamp_tax: Decimal,
    pub transfer_fee: Decimal,
    pub total_cost: Decimal,
    pub trade_date: String,
    pub note: String,
}

/// The stored text columns of a trade, in the table's order: price, amount,
/// commission, stamp tax, transfer fee, total cost.
pub struct TradeFigures {
    pub price: String,
    pub amount: String,
    pub commission: String,
    pub stamp_tax: String,
    pub transfer_fee: String,
    pub total_cost: String,
}

/// Reads a stored trade; a figure that does not parse counts as zero.
pub fn trade_from_row(
    id: i64,
    code: String,
    action: String,
    shares: i64,
    figures: &TradeFigures,
    trade_date: String,
    note: String,
) -> (r: TradeRecord)
    ensures
        r.id == id && r.code@ == code@ && r.action@ == action@ && r.shares == shares,
        r.trade_date@ == trade_date@ && r.note@ == note@,
        r.price@ == parse_or_zero(figures.price@),
        r.amount@ == parse_or_zero(figures.amount@),
        r.commission@ == parse_or_zero(figures.commission@),
        r.stamp_tax@ == parse_or_zero(figures.stamp_tax@),
        r.transfer_fee@ == parse_or_zero(figures.transfer_fee@),
        r.total_cost@ == parse_or_zero(figures.total_cost@),
{
    TradeRecord {
        id,
        code,
        action,
        price: parse_decimal_or_zero(figures.price.as_str()),
        shares,
        amount: parse_decimal_or_zero(figures.amount.as_str()),
        commission: parse_decimal_or_zero(figures.commission.as_str()),
        stamp_tax: parse_decimal_or_zero(figures.stamp_tax.as_str()),
        transfer_fee: parse_decimal_or_zero(figures.transfer_fee.as_str()),
        total_cost: parse_decimal_or_zero(figures.total_cost.as_str()),
        trade_date,
        note,
    }
}

/// The query of stored trades: all columns, filtered by code and by action
/// where given (the action upper-cased), newest first.
pub open spec fn trades_query_text(code: Option<(Seq<char>, Seq<char>)>, action: Option<Seq<char>>) -> (Seq<char>, Seq<Seq<char>>) {
    let base = "SELECT id, code, action, price, shares, amount, commission, stamp_tax, transfer_fee, total_cost, trade_date, note FROM trades WHERE 1=1"@;
    let (s1, p1) = match code {
        Some(c) => (base + " AND code = ?1"@, seq![api_text(c)]),
        None => (base, Seq::<Seq<char>>::empty()),
    };
    let (s2, p2) = match action {
        Some(a) => (s1 + " AND action = ?"@ + decimal_digits((p1.len() + 1) as nat), p1.push(unicode_uppercase(a))),
        None => (s1, p1),
    };
    (s2 + " ORDER BY trade_date DESC, id DESC"@, p2)
}

/// The query text and parameters for listing trades.
pub fn trades_query(code: Option<&StockCode>, action: Option<&str>) -> (r: (String, Vec<String>))
    ensures
        ({
            let (s, p) = trades_query_text(
                match code {
                    Some(c) => Some(c@),
                    None => None,
                },
                match action {
                    Some(a) => Some(a@),
                    None => None,
                },
            );
            r.0@ == s && r.1@.len() == p.len() && forall|i: int| 0 <= i < p.len() ==> (#[trigger] r.1@[i])@ == p[i]
        }),
{
    let mut sql = String::from_str(
        "SELECT id, code, action, price, shares, amount, commission, stamp_tax, transfer_fee, total_cost, trade_date, note FROM trades WHERE 1=1",
    );
    let mut params: Vec<String> = Vec::new();
    if let Some(c) = code {
        params.push(c.for_api());
        push_str(&mut sql, " AND code = ?1");
    }
    if let Some(a) = action {
        params.push(to_uppercase(a));
        push_str(&mut sql, " AND action = ?");
        push_decimal(&mut sql, params.len() as u64);
    }
    push_str(&mut sql, " ORDER BY trade_date DESC, id DESC");
    (sql, params)
}

// ─── Bars, ticks, money flows ───────────────────────────

/// The query of stored bars of a stock, with the date bounds that are given,
/// in date order: the code is parameter 1, then the start and the end date
/// where they are given.
pub open spec fn bars_query_text(has_start: bool, has_end: bool) -> Seq<char> {
    let base = "SELECT code, date, open, high, low, close, volume, turnover FROM daily_bars WHERE code = ?1"@;
    let with_start = if has_start {
        base + " AND date >= ?2"@
    } else {
        base
    };
    let with_end = if has_end {
        with_start + " AND date <= ?"@ + decimal_digits(if has_start {
            3nat
        } else {
            2nat
        })
    } else {
        with_start
    };
    with_end + " ORDER BY date ASC"@
}

/// The query text for stored bars.
pub fn bars_query(has_start: bool, has_end: bool) -> (r: String)
    ensures
        r@ == bars_query_text(has_start, has_end),
{
    let mut sql = String::from_str(
        "SELECT code, date, open, high, low, close, volume, turnover FROM daily_bars WHERE code = ?1",
    );
    let mut idx: u64 = 2;
    if has_start {
        push_str(&mut sql, " AND date >= ?2");
        idx = 3;
    }
    if has_end {
        push_str(&mut sql, " AND date <= ?");
        push_decimal(&mut sql, idx);
    }
    push_str(&mut sql, " ORDER BY date ASC");
    sql
}

/// The parameters of the bar query: the code's API form, then the start and
/// the end date where they are given.
pub open spec fn bars_query_params_of(code: (Seq<char>, Seq<char>), start: Option<Seq<char>>, end: Option<Seq<char>>) -> Seq<Seq<char>> {
    let p1 = seq![api_text(code)];
    let p2 = match start {
        Some(d) => p1.push(d),
        None => p1,
    };
    match end {
        Some(d) => p2.push(d),
        None => p2,
    }
}

/// The query text for stored bars with the values of all its parameters.
pub fn bars_query_with_params(code: &StockCode, start: Option<&str>, end: Option<&str>) -> (r: (String, Vec<String>))
    ensures
        r.0@ == bars_query_text(start is Some, end is Some),
        ({
            let p = bars_query_params_of(
                code@,
                match start {
                    Some(d) => Some(d@),
                    None => None,
                },
                match end {
                    Some(d) => Some(d@),
                    None => None,
                },
            );
            r.1@.len() == p.len() && forall|i: int| 0 <= i < p.len() ==> (#[trigger] r.1@[i])@ == p[i]
        }),
{
    let sql = bars_query(start.is_some(), end.is_some());
    let mut params: Vec<String> = Vec::new();
    params.push(code.for_api());
    if let Some(d) = start {
        params.push(String::from_str(d));
    }
    if let Some(d) = end {
        params.push(String::from_str(d));
    }
    (sql, params)
}

/// The code of a stored row: the row's text where it reads as a code, the
/// code asked for otherwise.
pub open spec fn code_or(text: Seq<char>, fallback: (Seq<char>, Seq<char>)) -> (Seq<char>, Seq<char>) {
    match parse_stock_code(text) {
        Ok(c) => c,
        Err(_) => fallback,
    }
}

/// Reads a stock code, falling back to a given one.
pub fn code_or_fallback(text: &str, fallback: &StockCode) -> (r: StockCode)
    ensures
        r@ == code_or(text@, fallback@),
{
    match StockCode::from_raw(text) {
        Ok(c) => c,
        Err(_) => fallback.duplicate(),
    }
}

/// The stored text columns of a bar: code, date, open, high, low, close, turnover.
pub struct BarRow {
    pub code: String,
    pub date: String,
    pub open: String,
    pub high: String,
    pub low: String,
    pub close: String,
    pub volume: i64,
    pub turnover: String,
}

/// The bar of a stored row: `None` where its date is no `YYYY-MM-DD` date.
pub open spec fn bar_of_row(row: BarRow, fallback: (Seq<char>, Seq<char>)) -> Option<BarModel> {
    match naive_date_parse(row.date@, "%Y-%m-%d"@) {
        None => None,
        Some(d) => Some(
            BarModel {
                code: code_or(row.code@, fallback),
                date: d,
                open: parse_or_zero(row.open@),
                close: parse_or_zero(row.close@),
                high: parse_or_zero(row.high@),
                low: parse_or_zero(row.low@),
                volume: row.volume as int,
                turnover: parse_or_zero(row.turnover@),
            },
        ),
    }
}

/// Reads a stored bar.
pub fn bar_from_row(row: &BarRow, fallback: &StockCode) -> (r: Option<Bar>)
    ensures
        match bar_of_row(*row, fallback@) {
            None => r is None,
            Some(b) => r matches Some(x) && x@ == b,
        },
{
    let date = match parse_date_with(row.date.as_str(), "%Y-%m-%d") {
        Some(d) => d,
        None => {
            return None;
        },
    };
    Some(
        Bar {
            code: code_or_fallback(row.code.as_str(), fallback),
            date,
            open: parse_decimal_or_zero(row.open.as_str()),
            close: parse_decimal_or_zero(row.close.as_str()),
            high: parse_decimal_or_zero(row.high.as_str()),
            low: parse_decimal_or_zero(row.low.as_str()),
            volume: row.volume,
            turnover: parse_decimal_or_zero(row.turnover.as_str()),
        },
    )
}

/// The stored columns of a trade of the tick record.
pub struct TickRow {
    pub tick_id: Option<String>,
    pub code: String,
    pub trade_time: String,
    pub price: String,
    pub volume: i64,
    pub direction: String,
    pub source: String,
}

/// How a tick trade is read from a stored row.
pub open spec fn tick_of_row(t: TickTrade, row: TickRow, fallback: (Seq<char>, Seq<char>)) -> bool {
    &&& t.tick_id == row.tick_id
    &&& t.code@ == code_or(row.code@, fallback)
    &&& t.trade_time@ == row.trade_time@
    &&& t.price@ == parse_or_zero(row.price@)
    &&& t.volume == row.volume
    &&& t.direction@ == row.direction@
    &&& t.source@ == row.source@
}

/// Reads the stored tick trades, which come newest first, into time order.
pub fn ticks_from_rows(rows: &Vec<TickRow>, fallback: &StockCode) -> (r: Vec<TickTrade>)
    ensures
        r@.len() == rows@.len(),
        forall|i: int|
            0 <= i < rows@.len() ==> tick_of_row(#[trigger] r@[i], rows@[rows@.len() - 1 - i], fallback@),
{
    let mut out: Vec<TickTrade> = Vec::new();
    let n = rows.len();
    for i in 0..n
        invariant
            n == rows@.len(),
            out@.len() == i,
            forall|k: int| 0 <= k < i ==> tick_of_row(#[trigger] out@[k], rows@[n - 1 - k], fallback@),
    {
        let row = &rows[n - 1 - i];
        out.push(
            TickTrade {
                tick_id: row.tick_id.clone(),
                code: code_or_fallback(row.code.as_str(), fallback),
                trade_time: row.trade_time.clone(),
                price: parse_decimal_or_zero(row.price.as_str()),
                volume: row.volume,
                direction: row.direction.clone(),
                source: row.source.clone(),
            },
        );
    }
    out
}

/// The stored columns of a day of money flow.
pub struct FlowRow {
    pub code: String,
    pub trade_date: String,
    pub main_inflow: String,
    pub main_outflow: String,
    pub main_net: String,
    pub retail_inflow: String,
    pub retail_outflow: String,
    pub retail_net: String,
    pub source: String,
}

/// How a money flow is read from a stored row.
pub open spec fn flow_of_row(f: MoneyFlow, row: FlowRow, fallback: (Seq<char>, Seq<char>)) -> bool {
    &&& f.code@ == code_or(row.code@, fallback)
    &&& f.trade_date@ == row.trade_date@
    &&& f.main_inflow@ == parse_or_zero(row.main_inflow@)
    &&& f.main_outflow@ == parse_or_zero(row.main_outflow@)
    &&& f.main_net@ == parse_or_zero(row.main_net@)
    &&& f.retail_inflow@ == parse_or_zero(row.retail_inflow@)
    &&& f.retail_outflow@ == parse_or_zero(row.retail_outflow@)
    &&& f.retail_net@ == parse_or_zero(row.retail_net@)
    &&& f.source@ == row.source@
}

/// Reads the stored money flows, which come newest first, into date order.
pub fn flows_from_rows(rows: &Vec<FlowRow>, fallback: &StockCode) -> (r: Vec<MoneyFlow>)
    ensures
        r@.len() == rows@.len(),
        forall|i: int|
            0 <= i < rows@.len() ==> flow_of_row(#[trigger] r@[i], rows@[rows@.len() - 1 - i], fallback@),
{
    let mut out: Vec<MoneyFlow> = Vec::new();
    let n = rows.len();
    for i in 0..n
        invariant
            n == rows@.len(),
            out@.len() == i,
            forall|k: int| 0 <= k < i ==> flow_of_row(#[trigger] out@[k], rows@[n - 1 - k], fallback@),
    {
        let row = &rows[n - 1 - i];
        out.push(
            MoneyFlow {
                code: code_or_fallback(row.code.as_str(), fallback),
                trade_date: row.trade_date.clone(),
                main_inflow: parse_decimal_or_zero(row.main_inflow.as_str()),
                main_outflow: parse_decimal_or_zero(row.main_outflow.as_str()),
                main_net: parse_decimal_or_zero(row.main_net.as_str()),
                retail_inflow: parse_decimal_or_zero(row.retail_inflow.as_str()),
                retail_outflow: parse_decimal_or_zero(row.retail_outflow.as_str()),
                retail_net: parse_decimal_or_zero(row.retail_net.as_str()),
                source: row.source.clone(),
            },
        );
    }
    out
}

/// The query of the latest ticks or flows: with a `LIMIT ?2` where a limit is given.
pub fn tick_query(limited: bool) -> (r: &'static str)
    ensures
        limited ==> r@ == "SELECT tick_id, code, trade_time, price, volume, direction, source FROM tick_trades WHERE code = ?1 ORDER BY trade_time DESC LIMIT ?2"@,
        !limited ==> r@ == "SELECT tick_id, code, trade_time, price, volume, direction, source FROM tick_trades WHERE code = ?1 ORDER BY trade_time DESC"@,
{
    if limited {
        "SELECT tick_id, code, trade_time, price, volume, direction, source FROM tick_trades WHERE code = ?1 ORDER BY trade_time DESC LIMIT ?2"
    } else {
        "SELECT tick_id, code, trade_time, price, volume, direction, source FROM tick_trades WHERE code = ?1 ORDER BY trade_time DESC"
    }
}

/// The query of the latest money flows: with a `LIMIT ?2` where a limit is given.
pub fn flow_query(limited: bool) -> (r: &'static str)
    ensures
        limited ==> r@ == "SELECT code, trade_date, main_inflow, main_outflow, main_net, retail_inflow, retail_outflow, retail_net, source FROM money_flow WHERE code = ?1 ORDER BY trade_date DESC LIMIT ?2"@,
        !limited ==> r@ == "SELECT code, trade_date, main_inflow, main_outflow, main_net, retail_inflow, retail_outflow, retail_net, source FROM money_flow WHERE code = ?1 ORDER BY trade_date DESC"@,
{
    if limited {
        "SELECT code, trade_date, main_inflow, main_outflow, main_net, retail_inflow, retail_outflow, retail_net, source FROM money_flow WHERE code = ?1 ORDER BY trade_date DESC LIMIT ?2"
    } else {
        "SELECT code, trade_date, main_inflow, main_outflow, main_net, retail_inflow, retail_outflow, retail_net, source FROM money_flow WHERE code = ?1 ORDER BY trade_date DESC"
    }
}

// ─── Order book levels ──────────────────────────────────

/// The price of a level: the first five texts read as decimals (zero where
/// they do not parse); missing levels are zero.
pub open spec fn level_price(strs: Seq<String>, i: int) -> (int, nat) {
    if i < strs.len() {
        parse_or_zero(strs[i]@)
    } else {
        (0int, 0nat)
    }
}

/// The volume of a level: the first five volumes; missing levels are zero.
pub open spec fn level_volume(vols: Seq<i64>, i: int) -> i64 {
    if i < vols.len() {
        vols[i]
    } else {
        0
    }
}

/// The five price levels of an order book side.
pub fn price_levels(strs: &Vec<String>) -> (r: [Decimal; 5])
    ensures
        forall|i: int| 0 <= i < 5 ==> (#[trigger] r@[i])@ == level_price(strs@, i),
{
    let mut arr = [Decimal::zero(), Decimal::zero(), Decimal::zero(), Decimal::zero(), Decimal::zero()];
    let mut i: usize = 0;
    while i < 5 && i < strs.len()
        invariant
            0 <= i <= 5,
            forall|k: int| 0 <= k < i ==> (#[trigger] arr@[k])@ == level_price(strs@, k),
            forall|k: int| i <= k < 5 ==> (#[trigger] arr@[k])@ == (0int, 0nat),
        decreases 5 - i,
    {
        arr[i] = parse_decimal_or_zero(strs[i].as_str());
        i += 1;
    }
    arr
}

/// The five volume levels of an order book side.
pub fn volume_levels(vols: &Vec<i64>) -> (r: [i64; 5])
    ensures
        forall|i: int| 0 <= i < 5 ==> #[trigger] r@[i] == level_volume(vols@, i),
{
    let mut arr = [0i64, 0, 0, 0, 0];
    let mut i: usize = 0;
    while i < 5 && i < vols.len()
        invariant
            0 <= i <= 5,
            forall|k: int| 0 <= k < i ==> #[trigger] arr@[k] == level_volume(vols@, k),
            forall|k: int| i <= k < 5 ==> #[trigger] arr@[k] == 0,
        decreases 5 - i,
    {
        arr[i] = vols[i];
        i += 1;
    }
    arr
}

/// What `serde_json::from_str::<Vec<String>>` reads from a text: the list of
/// strings of a JSON array of strings, or none.
pub uninterp spec fn json_text_list(s: Seq<char>) -> Option<Seq<Seq<char>>>;

/// What `serde_json::from_str::<Vec<i64>>` reads from a text: the list of
/// integers of a JSON array of integers, or none.
pub uninterp spec fn json_i64_list(s: Seq<char>) -> Option<Seq<i64>>;

/// The texts of a list of strings.
pub open spec fn texts_of(v: Seq<String>) -> Seq<Seq<char>> {
    v.map_values(|x: String| x@)
}

/// `serde_json::from_str::<Vec<String>>`: the strings of a JSON array of
/// strings, or `None` where the text is not one. The result is named, not
/// restated: it depends on the text alone.
#[verifier::external_body]
fn parse_text_list(s: &str) -> (r: Option<Vec<String>>)
    ensures
        match r {
            Some(v) => json_text_list(s@) == Some(texts_of(v@)),
            None => json_text_list(s@) is None,
        },
{
    serde_json::from_str::<Vec<String>>(s).ok()
}

/// `serde_json::from_str::<Vec<i64>>`: the integers of a JSON array of
/// integers, or `None` where the text is not one. The result is named, not
/// restated: it depends on the text alone.
#[verifier::external_body]
fn parse_i64_list(s: &str) -> (r: Option<Vec<i64>>)
    ensures
        match r {
            Some(v) => json_i64_list(s@) == Some(v@),
            None => json_i64_list(s@) is None,
        },
{
    serde_json::from_str::<Vec<i64>>(s).ok()
}

/// A stored list of level prices: the strings of its JSON text, none where
/// the text does not read as such a list.
pub open spec fn stored_texts(s: Seq<char>) -> Seq<Seq<char>> {
    match json_text_list(s) {
        Some(l) => l,
        None => Seq::empty(),
    }
}

/// A stored list of level volumes: the integers of its JSON text, none where
/// the text does not read as such a list.
pub open spec fn stored_volumes(s: Seq<char>) -> Seq<i64> {
    match json_i64_list(s) {
        Some(l) => l,
        None => Seq::empty(),
    }
}

/// The price of a level from a list of texts: the first five read as
/// decimals (zero where they do not parse); missing levels are zero.
pub open spec fn text_level_price(texts: Seq<Seq<char>>, i: int) -> (int, nat) {
    if i < texts.len() {
        parse_or_zero(texts[i])
    } else {
        (0int, 0nat)
    }
}

/// The levels of a stored side of the book.
fn stored_price_levels(s: &str) -> (r: [Decimal; 5])
    ensures
        forall|i: int| 0 <= i < 5 ==> (#[trigger] r@[i])@ == text_level_price(stored_texts(s@), i),
{
    let list = match parse_text_list(s) {
        Some(v) => v,
        None => Vec::new(),
    };
    assert(texts_of(list@) =~= stored_texts(s@));
    let r = price_levels(&list);
    assert forall|i: int| 0 <= i < 5 implies (#[trigger] r@[i])@ == text_level_price(stored_texts(s@), i) by {
        if i < list@.len() {
            assert(texts_of(list@)[i] == list@[i]@);
        }
    }
    r
}

/// The volumes of a stored side of the book.
fn stored_volume_levels(s: &str) -> (r: [i64; 5])
    ensures
        forall|i: int| 0 <= i < 5 ==> #[trigger] r@[i] == level_volume(stored_volumes(s@), i),
{
    let list = match parse_i64_list(s) {
        Some(v) => v,
        None => Vec::new(),
    };
    assert(list@ =~= stored_volumes(s@));
    volume_levels(&list)
}

/// Reads a stored order-book snapshot: the row's code where it reads as one
/// (the code asked for otherwise), the time and source as stored, and five
/// price and volume levels a side from the stored JSON lists (zero for
/// levels that are missing or do not read).
pub fn order_book_from_row(
    fallback: &StockCode,
    code: &str,
    snap_time: String,
    bid_prices: &str,
    bid_volumes: &str,
    ask_prices: &str,
    ask_volumes: &str,
    source: String,
) -> (r: OrderBookSnapshot)
    ensures
        r.code@ == code_or(code@, fallback@),
        r.snap_time@ == snap_time@,
        r.source@ == source@,
        forall|i: int| 0 <= i < 5 ==> (#[trigger] r.bid_prices@[i])@ == text_level_price(stored_texts(bid_prices@), i),
        forall|i: int| 0 <= i < 5 ==> (#[trigger] r.ask_prices@[i])@ == text_level_price(stored_texts(ask_prices@), i),
        forall|i: int| 0 <= i < 5 ==> #[trigger] r.bid_volumes@[i] == level_volume(stored_volumes(bid_volumes@), i),
        forall|i: int| 0 <= i < 5 ==> #[trigger] r.ask_volumes@[i] == level_volume(stored_volumes(ask_volumes@), i),
{
    OrderBookSnapshot {
        code: code_or_fallback(code, fallback),
        snap_time,
        bid_prices: stored_price_levels(bid_prices),
        bid_volumes: stored_volume_levels(bid_volumes),
        ask_prices: stored_price_levels(ask_prices),
        ask_volumes: stored_volume_levels(ask_volumes),
        source,
    }
}

// ─── Alert rules and the watch list ─────────────────────

/// An alert rule.
#[derive(Debug, Clone)]
pub struct AlertRule {
    pub id: i64,
    pub code: String,
    pub signal_type: String,
    /// Parameters as JSON text, such as `{"price":1800.0}`.
    pub params: String,
    pub enabled: bool,
}

/// Reads a stored alert rule: enabled where the flag is 1.
pub fn alert_rule_from_row(id: i64, code: String, signal_type: String, params: String, enabled: i32) -> (r: AlertRule)
    ensures
        r.id == id && r.code@ == code@ && r.signal_type@ == signal_type@ && r.params@ == params@,
        r.enabled == (enabled == 1),
{
    AlertRule { id, code, signal_type, params, enabled: enabled == 1 }
}

/// A stock of the watch list.
#[derive(Debug, Clone)]
pub struct WatchItem {
    pub code: String,
    pub name: String,
}

} // verus!
