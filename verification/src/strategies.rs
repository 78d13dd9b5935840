//! The built-in strategies and the signal rules they apply to indicator values.
//!
//! The indicators themselves (moving averages, MACD, RSI, KDJ, Bollinger bands)
//! are computed in floating point, outside this library; each rule here takes
//! the indicator values at the current and the previous bar.
use vstd::prelude::*;
use crate::decimal::{Decimal, pow10, value_le, value_lt};
use crate::engine::Signal;
use crate::text::same_text;

verus! {

/// The models of an optional decimal.
pub open spec fn ov(o: Option<Decimal>) -> Option<(int, nat)> {
    match o {
        Some(d) => Some(d@),
        None => None,
    }
}

/// The cross of a fast line over a slow one between two bars: a purchase when the
/// fast line rises from at or below the slow line to above it (golden cross); a
/// sale when it falls from at or above to below (dead cross); otherwise hold, and
/// hold when a value is missing.
pub open spec fn cross_of(
    prev_fast: Option<(int, nat)>,
    prev_slow: Option<(int, nat)>,
    curr_fast: Option<(int, nat)>,
    curr_slow: Option<(int, nat)>,
) -> Signal {
    match (curr_fast, prev_fast, curr_slow, prev_slow) {
        (Some(cf), Some(pf), Some(cs), Some(ps)) => if value_le(pf, ps) && value_lt(cs, cf) {
            Signal::Buy
        } else if value_le(ps, pf) && value_lt(cf, cs) {
            Signal::Sell
        } else {
            Signal::Hold
        },
        _ => Signal::Hold,
    }
}

/// The signal of a crossing between two lines.
pub fn cross_signal(
    prev_fast: Option<Decimal>,
    prev_slow: Option<Decimal>,
    curr_fast: Option<Decimal>,
    curr_slow: Option<Decimal>,
) -> (r: Signal)
    ensures
        r == cross_of(ov(prev_fast), ov(prev_slow), ov(curr_fast), ov(curr_slow)),
{
    match (curr_fast, prev_fast, curr_slow, prev_slow) {
        (Some(cf), Some(pf), Some(cs), Some(ps)) => if pf.le(&ps) && cf.gt(&cs) {
            Signal::Buy
        } else if pf.ge(&ps) && cf.lt(&cs) {
            Signal::Sell
        } else {
            Signal::Hold
        },
        _ => Signal::Hold,
    }
}

/// A bar is never both a golden and a dead cross: the order in which the rule
/// tests them does not matter.
pub proof fn law_cross_exclusive(pf: (int, nat), ps: (int, nat), cf: (int, nat), cs: (int, nat))
    ensures
        !(value_le(pf, ps) && value_lt(cs, cf) && value_le(ps, pf) && value_lt(cf, cs)),
{
}

/// The MACD histogram rule: a purchase when it turns from at or below zero to
/// above zero, a sale when it turns from at or above zero to below zero.
pub open spec fn histogram_turn_of(prev: Option<(int, nat)>, curr: Option<(int, nat)>) -> Signal {
    match (curr, prev) {
        (Some(c), Some(p)) => if p.0 <= 0 && c.0 > 0 {
            Signal::Buy
        } else if p.0 >= 0 && c.0 < 0 {
            Signal::Sell
        } else {
            Signal::Hold
        },
        _ => Signal::Hold,
    }
}

/// The MACD rule reacts to a turn of the histogram through zero only: it buys
/// exactly when the histogram goes from at or below zero to above zero, sells
/// exactly when it goes from at or above zero to below zero, and holds when
/// both values are above zero, both below, or one is missing.
pub proof fn law_histogram_turn(prev: Option<(int, nat)>, curr: Option<(int, nat)>)
    ensures
        (histogram_turn_of(prev, curr) == Signal::Buy) <==> (prev matches Some(p) && curr matches Some(c)
            && value_le(p, (0int, 0nat)) && value_lt((0int, 0nat), c)),
        (histogram_turn_of(prev, curr) == Signal::Sell) <==> (prev matches Some(p) && curr matches Some(c)
            && value_le((0int, 0nat), p) && value_lt(c, (0int, 0nat))),
        (prev matches Some(p) && curr matches Some(c) && value_lt((0int, 0nat), p) && value_lt(
            (0int, 0nat),
            c,
        )) ==> histogram_turn_of(prev, curr) == Signal::Hold,
        (prev matches Some(p) && curr matches Some(c) && value_lt(p, (0int, 0nat)) && value_lt(
            c,
            (0int, 0nat),
        )) ==> histogram_turn_of(prev, curr) == Signal::Hold,
        (prev is None || curr is None) ==> histogram_turn_of(prev, curr) == Signal::Hold,
{
    assert(pow10(0) == 1);
}

/// The RSI rule: a purchase when the RSI climbs out of the oversold zone (from
/// below `oversold` to at least it), a sale when it falls out of the overbought
/// zone (from above `overbought` to at most it).
pub open spec fn rsi_turn_of(
    prev: Option<(int, nat)>,
    curr: Option<(int, nat)>,
    oversold: (int, nat),
    overbought: (int, nat),
) -> Signal {
    match (curr, prev) {
        (Some(c), Some(p)) => if value_lt(p, oversold) && value_le(oversold, c) {
            Signal::Buy
        } else if value_lt(overbought, p) && value_le(c, overbought) {
            Signal::Sell
        } else {
            Signal::Hold
        },
        _ => Signal::Hold,
    }
}

/// The Bollinger rule, a mean-reversion rule: a purchase when the close
/// rebounds from at or below the lower band to above it, a sale when it falls
/// back from at or above the upper band to below it. A close breaking above
/// the upper band is a sale signal only once it falls back, never a purchase.
pub open spec fn band_break_of(
    prev_close: (int, nat),
    curr_close: (int, nat),
    prev_upper: Option<(int, nat)>,
    prev_lower: Option<(int, nat)>,
    curr_upper: Option<(int, nat)>,
    curr_lower: Option<(int, nat)>,
) -> Signal {
    match (curr_upper, curr_lower, prev_upper, prev_lower) {
        (Some(cu), Some(cl), Some(pu), Some(pl)) => if value_le(prev_close, pl) && value_lt(cl, curr_close) {
            Signal::Buy
        } else if value_le(pu, prev_close) && value_lt(curr_close, cu) {
            Signal::Sell
        } else {
            Signal::Hold
        },
        _ => Signal::Hold,
    }
}

/// A moving-average cross needs a crossing: a purchase only when the fast line
/// was at or below the slow one and is now above it, a sale only when it was at
/// or above and is now below; a fast line above the slow one on both bars, or
/// below it on both, or a missing value, holds.
pub proof fn law_cross_needs_a_crossing(
    pf: Option<(int, nat)>,
    ps: Option<(int, nat)>,
    cf: Option<(int, nat)>,
    cs: Option<(int, nat)>,
)
    ensures
        cross_of(pf, ps, cf, cs) == Signal::Buy ==> (pf matches Some(a) && ps matches Some(b) && value_le(a, b)),
        cross_of(pf, ps, cf, cs) == Signal::Buy ==> (cf matches Some(a) && cs matches Some(b) && value_lt(b, a)),
        cross_of(pf, ps, cf, cs) == Signal::Sell ==> (pf matches Some(a) && ps matches Some(b) && value_le(b, a)),
        cross_of(pf, ps, cf, cs) == Signal::Sell ==> (cf matches Some(a) && cs matches Some(b) && value_lt(a, b)),
        (pf matches Some(a) && ps matches Some(b) && value_lt(b, a)) && (cf matches Some(x) && cs matches Some(y)
            && value_lt(y, x)) ==> cross_of(pf, ps, cf, cs) == Signal::Hold,
        (pf matches Some(a) && ps matches Some(b) && value_lt(a, b)) && (cf matches Some(x) && cs matches Some(y)
            && value_lt(x, y)) ==> cross_of(pf, ps, cf, cs) == Signal::Hold,
        (pf is None || ps is None || cf is None || cs is None) ==> cross_of(pf, ps, cf, cs) == Signal::Hold,
{
}

/// The RSI rule buys only when the RSI comes up from below the oversold level
/// to at least it, sells only when it comes down from above the overbought
/// level to at most it, and holds while it stays at or above the oversold
/// level and at or below the overbought one on both bars.
pub proof fn law_rsi_turn(prev: Option<(int, nat)>, curr: Option<(int, nat)>, oversold: (int, nat), overbought: (int, nat))
    ensures
        rsi_turn_of(prev, curr, oversold, overbought) == Signal::Buy ==> (prev matches Some(p) && curr matches Some(
            c,
        ) && value_lt(p, oversold) && value_le(oversold, c)),
        rsi_turn_of(prev, curr, oversold, overbought) == Signal::Sell ==> (prev matches Some(p) && curr matches Some(
            c,
        ) && value_lt(overbought, p) && value_le(c, overbought)),
        (prev matches Some(p) && curr matches Some(c) && value_le(oversold, p) && value_le(p, overbought)
            && value_le(oversold, c) && value_le(c, overbought)) ==> rsi_turn_of(prev, curr, oversold, overbought)
            == Signal::Hold,
        (prev is None || curr is None) ==> rsi_turn_of(prev, curr, oversold, overbought) == Signal::Hold,
{
    lemma_value_order();
}

/// The Bollinger rule buys only on a rebound, from at or below the lower band
/// to above it, and sells only on a fall back, from at or above the upper band
/// to below it; a previous close strictly inside the bands, or a missing band,
/// gives no signal.
pub proof fn law_band_rebound(
    prev_close: (int, nat),
    curr_close: (int, nat),
    pu: Option<(int, nat)>,
    pl: Option<(int, nat)>,
    cu: Option<(int, nat)>,
    cl: Option<(int, nat)>,
)
    ensures
        band_break_of(prev_close, curr_close, pu, pl, cu, cl) == Signal::Buy ==> (pl matches Some(l) && cl matches Some(
            l2,
        ) && value_le(prev_close, l) && value_lt(l2, curr_close)),
        band_break_of(prev_close, curr_close, pu, pl, cu, cl) == Signal::Sell ==> (pu matches Some(u)
            && cu matches Some(u2) && value_le(u, prev_close) && value_lt(curr_close, u2)),
        (pu matches Some(u) && pl matches Some(l) && value_lt(l, prev_close) && value_lt(prev_close, u))
            ==> band_break_of(prev_close, curr_close, pu, pl, cu, cl) == Signal::Hold,
        (pu is None || pl is None || cu is None || cl is None) ==> band_break_of(prev_close, curr_close, pu, pl, cu, cl)
            == Signal::Hold,
{
    lemma_value_order();
}

/// `<` and `<=` on decimal values are the order of the rationals they stand for.
proof fn lemma_value_order()
    ensures
        forall|a: (int, nat), b: (int, nat)| #[trigger] value_lt(a, b) ==> !value_le(b, a),
{
}

/// The Bollinger band break signal.
pub fn band_break_signal(
    prev_close: Decimal,
    curr_close: Decimal,
    prev_upper: Option<Decimal>,
    prev_lower: Option<Decimal>,
    curr_upper: Option<Decimal>,
    curr_lower: Option<Decimal>,
) -> (r: Signal)
    ensures
        r == band_break_of(
            prev_close@,
            curr_close@,
            ov(prev_upper),
            ov(prev_lower),
            ov(curr_upper),
            ov(curr_lower),
        ),
{
    match (curr_upper, curr_lower, prev_upper, prev_lower) {
        (Some(cu), Some(cl), Some(pu), Some(pl)) => if prev_close.le(&pl) && curr_close.gt(&cl) {
            Signal::Buy
        } else if prev_close.ge(&pu) && curr_close.lt(&cu) {
            Signal::Sell
        } else {
            Signal::Hold
        },
        _ => Signal::Hold,
    }
}

/// Dual moving average crossing: buy when the short average crosses above the
/// long one, sell when it crosses below.
#[derive(Debug, Clone, Copy)]
pub struct DualMaStrategy {
    pub short_period: usize,
    pub long_period: usize,
}

impl DualMaStrategy {
    /// The default periods: 5 and 20.
    pub fn default_periods() -> (r: DualMaStrategy)
        ensures
            r.short_period == 5,
            r.long_period == 20,
    {
        DualMaStrategy { short_period: 5, long_period: 20 }
    }

    /// The signal after bar `index`, given both moving averages over the bars up
    /// to it: hold until there are `long_period` bars before it.
    pub fn signal_from(&self, index: usize, short_ma: &[Option<Decimal>], long_ma: &[Option<Decimal>]) -> (r: Signal)
        requires
            index < short_ma@.len(),
            index < long_ma@.len(),
            index >= 1 || self.long_period >= 1,
        ensures
            r == if index < self.long_period {
                Signal::Hold
            } else {
                cross_of(
                    ov(short_ma@[index - 1]),
                    ov(long_ma@[index - 1]),
                    ov(short_ma@[index as int]),
                    ov(long_ma@[index as int]),
                )
            },
    {
        if index < self.long_period {
            return Signal::Hold;
        }
        cross_signal(short_ma[index - 1], long_ma[index - 1], short_ma[index], long_ma[index])
    }
}

/// MACD crossing: buy when the histogram turns positive, sell when it turns negative.
#[derive(Debug, Clone, Copy)]
pub struct MacdCrossStrategy;

impl MacdCrossStrategy {
    /// The signal after bar `index`, given the MACD histogram over the bars up to
    /// it: hold for the first 35 bars, which MACD needs.
    pub fn signal_from(&self, index: usize, histogram: &[Option<Decimal>]) -> (r: Signal)
        requires
            index < histogram@.len(),
        ensures
            r == if index < 35 {
                Signal::Hold
            } else {
                histogram_turn_of(ov(histogram@[index - 1]), ov(histogram@[index as int]))
            },
    {
        if index < 35 {
            return Signal::Hold;
        }
        match (histogram[index], histogram[index - 1]) {
            (Some(ch), Some(ph)) => if !ph.is_positive() && ch.is_positive() {
                Signal::Buy
            } else if !ph.is_negative() && ch.is_negative() {
                Signal::Sell
            } else {
                Signal::Hold
            },
            _ => Signal::Hold,
        }
    }
}

/// RSI reversal: buy when the RSI leaves the oversold zone, sell when it leaves
/// the overbought zone.
#[derive(Debug, Clone, Copy)]
pub struct RsiReversalStrategy {
    pub oversold: Decimal,
    pub overbought: Decimal,
}

impl RsiReversalStrategy {
    /// The default thresholds: 30 and 70.
    pub fn default_levels() -> (r: RsiReversalStrategy)
        ensures
            r.oversold@ == (30int, 0nat),
            r.overbought@ == (70int, 0nat),
    {
        RsiReversalStrategy { oversold: Decimal::new(30, 0), overbought: Decimal::new(70, 0) }
    }

    /// The signal after bar `index`, given the 14-bar RSI over the bars up to it:
    /// hold for the first 15 bars.
    pub fn signal_from(&self, index: usize, rsi: &[Option<Decimal>]) -> (r: Signal)
        requires
            index < rsi@.len(),
        ensures
            r == if index < 15 {
                Signal::Hold
            } else {
                rsi_turn_of(
                    ov(rsi@[index - 1]),
                    ov(rsi@[index as int]),
                    self.oversold@,
                    self.overbought@,
                )
            },
    {
        if index < 15 {
            return Signal::Hold;
        }
        match (rsi[index], rsi[index - 1]) {
            (Some(c), Some(p)) => if p.lt(&self.oversold) && c.ge(&self.oversold) {
                Signal::Buy
            } else if p.gt(&self.overbought) && c.le(&self.overbought) {
                Signal::Sell
            } else {
                Signal::Hold
            },
            _ => Signal::Hold,
        }
    }
}

/// KDJ crossing: buy when K crosses above D, sell when it crosses below.
#[derive(Debug, Clone, Copy)]
pub struct KdjCrossStrategy;

impl KdjCrossStrategy {
    /// The signal after bar `index`, given K and D over the bars up to it: hold
    /// for the first 10 bars.
    pub fn signal_from(&self, index: usize, k: &[Option<Decimal>], d: &[Option<Decimal>]) -> (r: Signal)
        requires
            index < k@.len(),
            index < d@.len(),
        ensures
            r == if index < 10 {
                Signal::Hold
            } else {
                cross_of(
                    ov(k@[index - 1]),
                    ov(d@[index - 1]),
                    ov(k@[index as int]),
                    ov(d@[index as int]),
                )
            },
    {
        if index < 10 {
            return Signal::Hold;
        }
        cross_signal(k[index - 1], d[index - 1], k[index], d[index])
    }
}

/// The built-in strategies.
#[derive(Debug, Clone, Copy, PartialEq, Eq)]
pub enum StrategyKind {
    DualMa,
    MacdCross,
    RsiReversal,
    KdjCross,
    BollBreak,
}

/// The name and description of each built-in strategy, in order.
pub open spec fn strategy_catalog() -> Seq<(Seq<char>, Seq<char>)> {
    seq![
        ("dual_ma"@, "双均线交叉 (MA5/MA20)"@),
        ("macd_cross"@, "MACD金叉死叉"@),
        ("rsi_reversal"@, "RSI超买超卖"@),
        ("kdj_cross"@, "KDJ金叉死叉"@),
        ("boll_break"@, "布林带突破"@),
    ]
}

/// The strategy that a name stands for.
pub open spec fn strategy_named(name: Seq<char>) -> Option<StrategyKind> {
    if name == "dual_ma"@ {
        Some(StrategyKind::DualMa)
    } else if name == "macd_cross"@ {
        Some(StrategyKind::MacdCross)
    } else if name == "rsi_reversal"@ {
        Some(StrategyKind::RsiReversal)
    } else if name == "kdj_cross"@ {
        Some(StrategyKind::KdjCross)
    } else if name == "boll_break"@ {
        Some(StrategyKind::BollBreak)
    } else {
        None
    }
}

/// The built-in strategies: name and description of each.
pub fn list_strategies() -> (r: Vec<(&'static str, &'static str)>)
    ensures
        r@.len() == strategy_catalog().len(),
        forall|i: int|
            0 <= i < r@.len() ==> (#[trigger] r@[i]).0@ == strategy_catalog()[i].0 && r@[i].1@
                == strategy_catalog()[i].1,
{
    let mut v: Vec<(&'static str, &'static str)> = Vec::new();
    v.push(("dual_ma", "双均线交叉 (MA5/MA20)"));
    v.push(("macd_cross", "MACD金叉死叉"));
    v.push(("rsi_reversal", "RSI超买超卖"));
    v.push(("kdj_cross", "KDJ金叉死叉"));
    v.push(("boll_break", "布林带突破"));
    v
}

/// The built-in strategy of a name, if there is one.
pub fn strategy_kind(name: &str) -> (r: Option<StrategyKind>)
    ensures
        r == strategy_named(name@),
{
    if same_text(name, "dual_ma") {
        Some(StrategyKind::DualMa)
    } else if same_text(name, "macd_cross") {
        Some(StrategyKind::MacdCross)
    } else if same_text(name, "rsi_reversal") {
        Some(StrategyKind::RsiReversal)
    } else if same_text(name, "kdj_cross") {
        Some(StrategyKind::KdjCross)
    } else if same_text(name, "boll_break") {
        Some(StrategyKind::BollBreak)
    } else {
        None
    }
}

/// Every name in the list of strategies names a built-in strategy.
pub proof fn law_listed_strategies_exist(i: int)
    requires
        0 <= i < strategy_catalog().len(),
    ensures
        strategy_named(strategy_catalog()[i].0) is Some,
{
    reveal_strlit("dual_ma");
    reveal_strlit("macd_cross");
    reveal_strlit("rsi_reversal");
    reveal_strlit("kdj_cross");
    reveal_strlit("boll_break");
    assert("dual_ma"@.len() == 7);
    assert("macd_cross"@.len() == 10);
    assert("rsi_reversal"@.len() == 12);
    assert("kdj_cross"@.len() == 9);
    assert("boll_break"@.len() == 10);
}

} // verus!
