//! Recording trades and valuing positions: the checks on a trade entered by
//! hand, the live prices of positions, and their profit.
use vstd::prelude::*;
use crate::decimal::{
    Decimal, decimal_add_result, decimal_div_result, decimal_mul_result, decimal_parse_result,
    decimal_sub_result, parse_decimal, value_lt,
};
use crate::models::Quote;
use crate::stock::api_text;
use crate::store::PositionRecord;
use crate::text::{same_text, to_uppercase, unicode_uppercase};

verus! {

/// The outcome of checking a trade entered by hand.
#[derive(Debug)]
pub enum TradeCheck {
    /// The price parsed and the action is `BUY` or `SELL` (upper-cased).
    Accepted { price: Decimal, action: String },
    /// The price is no decimal number.
    BadPrice,
    /// The action is neither buy nor sell, in any case.
    BadAction,
    /// The shares are not a whole number of lots of 100.
    OddLot,
}

/// How a trade entered by hand is checked: the price first, then the action
/// (upper-cased), then the lot size.
pub open spec fn trade_check_of(price: Seq<char>, action: Seq<char>, shares: int) -> Result<((int, nat), Seq<char>), u8> {
    match decimal_parse_result(price) {
        None => Err(0u8),
        Some(p) => {
            let up = unicode_uppercase(action);
            if up != "BUY"@ && up != "SELL"@ {
                Err(1u8)
            } else if shares % 100 != 0 {
                Err(2u8)
            } else {
                Ok((p, up))
            }
        },
    }
}

/// Checks a trade entered by hand (price text, action, shares).
pub fn check_trade(price: &str, action: &str, shares: i64) -> (r: TradeCheck)
    ensures
        match trade_check_of(price@, action@, shares as int) {
            Ok((p, a)) => r matches TradeCheck::Accepted { price: x, action: y } && x@ == p && y@ == a,
            Err(0u8) => r is BadPrice,
            Err(1u8) => r is BadAction,
            Err(_) => r is OddLot,
        },
{
    let p = match parse_decimal(price) {
        Some(p) => p,
        None => {
            return TradeCheck::BadPrice;
        },
    };
    let up = to_uppercase(action);
    if !same_text(up.as_str(), "BUY") && !same_text(up.as_str(), "SELL") {
        return TradeCheck::BadAction;
    }
    if shares % 100 != 0 {
        return TradeCheck::OddLot;
    }
    TradeCheck::Accepted { price: p, action: up }
}

/// The index of the first quote of a stock, or the number of quotes.
pub open spec fn quote_index(quotes: Seq<Quote>, code: Seq<char>) -> int
    decreases quotes.len(),
{
    if quotes.len() == 0 {
        0
    } else {
        let k = quote_index(quotes.drop_last(), code);
        if k < quotes.len() - 1 {
            k
        } else if api_text(quotes.last().code@) == code {
            quotes.len() - 1
        } else {
            quotes.len() as int
        }
    }
}

proof fn lemma_quote_index_prefix(quotes: Seq<Quote>, code: Seq<char>, k: int)
    requires
        0 <= k <= quotes.len(),
        quote_index(quotes.take(k), code) < k,
    ensures
        quote_index(quotes, code) == quote_index(quotes.take(k), code),
    decreases quotes.len() - k,
{
    if k < quotes.len() {
        assert(quotes.take(k + 1).drop_last() == quotes.take(k));
        lemma_quote_index_prefix(quotes, code, k + 1);
    } else {
        assert(quotes.take(k) == quotes);
    }
}

fn find_quote(quotes: &Vec<Quote>, code: &str) -> (r: Option<usize>)
    ensures
        match r {
            Some(i) => i == quote_index(quotes@, code@) && i < quotes@.len(),
            None => quote_index(quotes@, code@) == quotes@.len(),
        },
{
    let mut i: usize = 0;
    assert(quotes@.take(0) =~= Seq::<Quote>::empty());
    while i < quotes.len()
        invariant
            0 <= i <= quotes@.len(),
            quote_index(quotes@.take(i as int), code@) == i,
        decreases quotes.len() - i,
    {
        assert(quotes@.take(i + 1).drop_last() =~= quotes@.take(i as int));
        assert(quotes@.take(i + 1).last() == quotes@[i as int]);
        if same_text(quotes[i].code.for_api().as_str(), code) {
            proof {
                lemma_quote_index_prefix(quotes@, code@, i + 1);
            }
            return Some(i);
        }
        i += 1;
    }
    assert(quotes@.take(i as int) =~= quotes@);
    None
}

/// Gives each position the price of the first quote of its stock; positions
/// without a quote keep their price.
pub fn fill_current_prices(positions: &mut Vec<PositionRecord>, quotes: &Vec<Quote>)
    ensures
        final(positions)@.len() == old(positions)@.len(),
        forall|i: int|
            0 <= i < old(positions)@.len() ==> {
                let p = #[trigger] final(positions)@[i];
                let o = old(positions)@[i];
                let k = quote_index(quotes@, o.code@);
                &&& p.code@ == o.code@ && p.name@ == o.name@ && p.shares == o.shares && p.avg_cost == o.avg_cost
                &&& p.current_price == (if k < quotes@.len() {
                    quotes@[k].price
                } else {
                    o.current_price
                })
            },
{
    let mut out: Vec<PositionRecord> = Vec::new();
    for i in 0..positions.len()
        invariant
            out@.len() == i,
            forall|j: int|
                0 <= j < i ==> {
                    let p = #[trigger] out@[j];
                    let o = positions@[j];
                    let k = quote_index(quotes@, o.code@);
                    &&& p.code@ == o.code@ && p.name@ == o.name@ && p.shares == o.shares && p.avg_cost
                        == o.avg_cost
                    &&& p.current_price == (if k < quotes@.len() {
                        quotes@[k].price
                    } else {
                        o.current_price
                    })
                },
    {
        let pos = &positions[i];
        let price = match find_quote(quotes, pos.code.as_str()) {
            Some(k) => quotes[k].price,
            None => pos.current_price,
        };
        out.push(
            PositionRecord {
                code: pos.code.clone(),
                name: pos.name.clone(),
                shares: pos.shares,
                avg_cost: pos.avg_cost,
                current_price: price,
            },
        );
    }
    *positions = out;
}

/// What a position is worth: market value, cost, profit and profit percent.
#[derive(Debug, Clone, Copy)]
pub struct PositionValue {
    pub market_value: Decimal,
    pub cost_value: Decimal,
    pub profit: Decimal,
    pub profit_pct: Decimal,
}

/// The profit in percent of a cost: `profit / cost * 100` where the cost is
/// positive, zero otherwise; `None` where a step overflows.
pub open spec fn profit_pct_of(profit: (int, nat), cost: (int, nat)) -> Option<(int, nat)> {
    if value_lt((0int, 0nat), cost) {
        match decimal_div_result(profit, cost) {
            Some(q) => decimal_mul_result(q, (100int, 0nat)),
            None => None,
        }
    } else {
        Some((0int, 0nat))
    }
}

/// The value of a position: price and cost times shares, their difference and
/// the difference in percent of the cost.
pub open spec fn position_value_of(price: (int, nat), avg_cost: (int, nat), shares: int) -> Option<((int, nat), (int, nat), (int, nat), (int, nat))> {
    match (decimal_mul_result(price, (shares, 0nat)), decimal_mul_result(avg_cost, (shares, 0nat))) {
        (Some(mv), Some(cv)) => match decimal_sub_result(mv, cv) {
            Some(p) => match profit_pct_of(p, cv) {
                Some(pct) => Some((mv, cv, p, pct)),
                None => None,
            },
            None => None,
        },
        _ => None,
    }
}

fn profit_pct(profit: &Decimal, cost: &Decimal) -> (r: Option<Decimal>)
    ensures
        opt_eq(r, profit_pct_of(profit@, cost@)),
{
    if cost.gt(&Decimal::zero()) {
        match profit.checked_div(cost) {
            Some(q) => q.checked_mul(&Decimal::from_i64(100)),
            None => None,
        }
    } else {
        Some(Decimal::zero())
    }
}

/// An optional decimal and an optional model agree.
pub open spec fn opt_eq(r: Option<Decimal>, m: Option<(int, nat)>) -> bool {
    match m {
        Some(v) => r matches Some(x) && x@ == v,
        None => r is None,
    }
}

/// The value of a position at a price.
pub fn position_value(current_price: &Decimal, avg_cost: &Decimal, shares: i64) -> (r: Option<PositionValue>)
    ensures
        match position_value_of(current_price@, avg_cost@, shares as int) {
            Some((mv, cv, p, pct)) => r matches Some(v) && v.market_value@ == mv && v.cost_value@ == cv
                && v.profit@ == p && v.profit_pct@ == pct,
            None => r is None,
        },
{
    let n = Decimal::from_i64(shares);
    let mv = match current_price.checked_mul(&n) {
        Some(x) => x,
        None => {
            return None;
        },
    };
    let cv = match avg_cost.checked_mul(&n) {
        Some(x) => x,
        None => {
            return None;
        },
    };
    let p = match mv.checked_sub(&cv) {
        Some(x) => x,
        None => {
            return None;
        },
    };
    match profit_pct(&p, &cv) {
        Some(pct) => Some(PositionValue { market_value: mv, cost_value: cv, profit: p, profit_pct: pct }),
        None => None,
    }
}

/// The running sums of market values and of costs, from zero.
pub open spec fn value_sums(vs: Seq<PositionValue>) -> Option<((int, nat), (int, nat))>
    decreases vs.len(),
{
    if vs.len() == 0 {
        Some(((0int, 0nat), (0int, 0nat)))
    } else {
        match value_sums(vs.drop_last()) {
            Some((tv, tc)) => match (
                decimal_add_result(tv, vs.last().market_value@),
                decimal_add_result(tc, vs.last().cost_value@),
            ) {
                (Some(a), Some(b)) => Some((a, b)),
                _ => None,
            },
            None => None,
        }
    }
}

/// The totals of a portfolio: market value, cost, profit and profit percent.
pub open spec fn totals_of(vs: Seq<PositionValue>) -> Option<((int, nat), (int, nat), (int, nat), (int, nat))> {
    match value_sums(vs) {
        Some((tv, tc)) => match decimal_sub_result(tv, tc) {
            Some(p) => match profit_pct_of(p, tc) {
                Some(pct) => Some((tv, tc, p, pct)),
                None => None,
            },
            None => None,
        },
        None => None,
    }
}

proof fn lemma_sums_fail(vs: Seq<PositionValue>, k: int)
    requires
        0 <= k <= vs.len(),
        value_sums(vs.take(k)) is None,
    ensures
        value_sums(vs) is None,
    decreases vs.len() - k,
{
    if k < vs.len() {
        assert(vs.take(k + 1).drop_last() == vs.take(k));
        lemma_sums_fail(vs, k + 1);
    } else {
        assert(vs.take(k) == vs);
    }
}

/// The totals of a portfolio's positions.
pub fn portfolio_totals(values: &Vec<PositionValue>) -> (r: Option<PositionValue>)
    ensures
        match totals_of(values@) {
            Some((tv, tc, p, pct)) => r matches Some(v) && v.market_value@ == tv && v.cost_value@ == tc
                && v.profit@ == p && v.profit_pct@ == pct,
            None => r is None,
        },
{
    let mut tv = Decimal::zero();
    let mut tc = Decimal::zero();
    let mut i: usize = 0;
    assert(values@.take(0) =~= Seq::<PositionValue>::empty());
    while i < values.len()
        invariant
            0 <= i <= values@.len(),
            value_sums(values@.take(i as int)) == Some((tv@, tc@)),
        decreases values.len() - i,
    {
        assert(values@.take(i + 1).drop_last() =~= values@.take(i as int));
        assert(values@.take(i + 1).last() == values@[i as int]);
        let a = tv.checked_add(&values[i].market_value);
        let b = tc.checked_add(&values[i].cost_value);
        match (a, b) {
            (Some(a), Some(b)) => {
                tv = a;
                tc = b;
            },
            _ => {
                proof {
                    lemma_sums_fail(values@, i + 1);
                }
                return None;
            },
        }
        i += 1;
    }
    assert(values@.take(i as int) =~= values@);
    let p = match tv.checked_sub(&tc) {
        Some(x) => x,
        None => {
            return None;
        },
    };
    match profit_pct(&p, &tc) {
        Some(pct) => Some(PositionValue { market_value: tv, cost_value: tc, profit: p, profit_pct: pct }),
        None => None,
    }
}

/// The percent relation of a profit to a cost: the profit divided by the cost,
/// times 100, where the cost is positive; zero where it is not.
pub open spec fn percent_of_cost(profit: (int, nat), cost: (int, nat), pct: (int, nat)) -> bool {
    if value_lt((0int, 0nat), cost) {
        decimal_div_result(profit, cost) matches Some(q) && decimal_mul_result(q, (100int, 0nat)) == Some(pct)
    } else {
        pct == (0int, 0nat)
    }
}

/// A position's market value is the price times the shares, its cost the
/// average cost times the shares, its profit the difference, and its profit
/// percent that profit over the cost (not over the market value), times 100.
pub proof fn law_position_value(price: (int, nat), avg_cost: (int, nat), shares: int)
    requires
        position_value_of(price, avg_cost, shares) is Some,
    ensures
        ({
            let (mv, cv, p, pct) = position_value_of(price, avg_cost, shares)->0;
            &&& decimal_mul_result(price, (shares, 0nat)) == Some(mv)
            &&& decimal_mul_result(avg_cost, (shares, 0nat)) == Some(cv)
            &&& decimal_sub_result(mv, cv) == Some(p)
            &&& percent_of_cost(p, cv, pct)
        }),
{
}

/// The totals of a portfolio: the market value and the cost are the sums of
/// the positions' (added in order from zero), the profit is their difference,
/// and the profit percent is the total profit over the total cost (not over
/// the market value), times 100, where that cost is positive, zero otherwise.
pub proof fn law_portfolio_totals(vs: Seq<PositionValue>)
    requires
        totals_of(vs) is Some,
    ensures
        ({
            let (tv, tc, p, pct) = totals_of(vs)->0;
            &&& value_sums(vs) == Some((tv, tc))
            &&& decimal_sub_result(tv, tc) == Some(p)
            &&& percent_of_cost(p, tc, pct)
        }),
{
}

} // verus!
