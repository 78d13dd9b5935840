//! The indicator report: the latest value of each indicator and what it says.
use vstd::prelude::*;
use crate::decimal::{Decimal, decimal_format_2dp, format_2dp, same_value, value_lt};
use crate::models::{Bar, date_text};
use crate::text::{join_strings, join_texts, push_repeat, push_str, repeat_char, texts_view};

verus! {

/// How a short moving average crosses a long one.
#[derive(Debug, Clone, Copy, PartialEq, Eq)]
pub enum CrossType {
    /// The short average rises above the long one.
    GoldenCross,
    /// The short average falls below the long one.
    DeadCross,
}

/// A named indicator value.
#[derive(Debug, Clone)]
pub struct IndicatorValue {
    pub name: String,
    pub value: Option<Decimal>,
}

/// MACD values: DIF, DEA and the histogram.
#[derive(Debug, Clone, Copy)]
pub struct MacdResult {
    pub dif: Option<Decimal>,
    pub dea: Option<Decimal>,
    pub histogram: Option<Decimal>,
}

/// KDJ values.
#[derive(Debug, Clone, Copy)]
pub struct KdjResult {
    pub k: Option<Decimal>,
    pub d: Option<Decimal>,
    pub j: Option<Decimal>,
}

/// Bollinger band values.
#[derive(Debug, Clone, Copy)]
pub struct BollResult {
    pub upper: Option<Decimal>,
    pub middle: Option<Decimal>,
    pub lower: Option<Decimal>,
}

/// The latest indicator values of a stock.
#[derive(Debug, Clone)]
pub struct IndicatorReport {
    /// Moving averages, MA5, MA10, MA20 and MA60 in that order.
    pub ma: Vec<IndicatorValue>,
    pub macd: MacdResult,
    pub rsi: Option<Decimal>,
    pub kdj: KdjResult,
    pub boll: BollResult,
    /// Latest close.
    pub close: Decimal,
    /// Latest date.
    pub date: String,
}

/// A value with two digits after the point, or `N/A`.
pub open spec fn val_text(v: Option<Decimal>) -> Seq<char> {
    match v {
        Some(d) => decimal_format_2dp(d@),
        None => "N/A"@,
    }
}

fn fmt_val(v: Option<Decimal>) -> (r: String)
    ensures
        r@ == val_text(v),
{
    match v {
        Some(d) => format_2dp(&d),
        None => String::from_str("N/A"),
    }
}

/// `a > b` as numbers.
pub open spec fn dec_gt(a: Decimal, b: Decimal) -> bool {
    value_lt(b@, a@)
}

/// The `name: value` texts of the known moving averages, in order.
pub open spec fn ma_parts(ma: Seq<IndicatorValue>) -> Seq<Seq<char>>
    decreases ma.len(),
{
    if ma.len() == 0 {
        Seq::empty()
    } else {
        let rest = ma_parts(ma.drop_last());
        match ma.last().value {
            Some(d) => rest.push(ma.last().name@ + ": "@ + decimal_format_2dp(d@)),
            None => rest,
        }
    }
}

/// Every moving average is known.
pub open spec fn all_ma_known(ma: Seq<IndicatorValue>) -> bool {
    forall|i: int| 0 <= i < ma.len() ==> (#[trigger] ma[i]).value is Some
}

/// Whether the alignment test stays within the moving averages: it compares
/// the first with the second and, where they differ, the second with the
/// third. A list whose values are all known therefore needs a third entry,
/// unless it has two entries of equal value (or none at all).
pub open spec fn ma_within_bounds(ma: Seq<IndicatorValue>) -> bool {
    !(all_ma_known(ma) && (ma.len() == 1 || (ma.len() == 2 && !same_value(
        ma[0].value->0@,
        ma[1].value->0@,
    ))))
}

/// The moving-average lines: the known values, then the alignment of the
/// first three (bullish when each is above the next, bearish when below) where
/// all values are known.
pub open spec fn ma_lines(ma: Seq<IndicatorValue>) -> Seq<Seq<char>> {
    let parts = ma_parts(ma);
    if parts.len() == 0 {
        Seq::empty()
    } else {
        let head = seq!["MA:   "@ + join_texts(parts, "  "@)];
        if all_ma_known(ma) {
            let v0 = ma[0].value->0;
            let v1 = ma[1].value->0;
            let v2 = ma[2].value->0;
            if dec_gt(v0, v1) && dec_gt(v1, v2) {
                head.push("      → 多头排列 (MA5 > MA10 > MA20)"@)
            } else if dec_gt(v1, v0) && dec_gt(v2, v1) {
                head.push("      → 空头排列 (MA5 < MA10 < MA20)"@)
            } else {
                head
            }
        } else {
            head
        }
    }
}

/// The MACD lines: the values, then DIF against DEA where both are known.
pub open spec fn macd_lines(m: MacdResult) -> Seq<Seq<char>> {
    let head = seq![
        "MACD: DIF="@ + val_text(m.dif) + "  DEA="@ + val_text(m.dea) + "  柱="@ + val_text(
            m.histogram,
        ),
    ];
    match (m.dif, m.dea) {
        (Some(dif), Some(dea)) => if dec_gt(dif, dea) {
            head.push("      → DIF在DEA上方 (金叉/多头)"@)
        } else {
            head.push("      → DIF在DEA下方 (死叉/空头)"@)
        },
        _ => head,
    }
}

/// The RSI lines: the value, then its zone (above 70, below 30, or between).
pub open spec fn rsi_lines(rsi: Option<Decimal>) -> Seq<Seq<char>> {
    let head = seq!["RSI:  "@ + val_text(rsi)];
    match rsi {
        Some(x) => if value_lt((70int, 0nat), x@) {
            head.push("      → 超买区域 (>70)"@)
        } else if value_lt(x@, (30int, 0nat)) {
            head.push("      → 超卖区域 (<30)"@)
        } else {
            head.push("      → 中性区域"@)
        },
        None => head,
    }
}

/// The KDJ lines: the values, K against D where both are known, then J above
/// 100 or below 0.
pub open spec fn kdj_lines(k: KdjResult) -> Seq<Seq<char>> {
    let head = seq![
        "KDJ:  K="@ + val_text(k.k) + "  D="@ + val_text(k.d) + "  J="@ + val_text(k.j),
    ];
    let cross = match (k.k, k.d) {
        (Some(kv), Some(dv)) => if dec_gt(kv, dv) {
            head.push("      → K在D上方 (金叉)"@)
        } else {
            head.push("      → K在D下方 (死叉)"@)
        },
        _ => head,
    };
    match k.j {
        Some(j) => if value_lt((100int, 0nat), j@) {
            cross.push("      → J值超买 (>100)"@)
        } else if value_lt(j@, (0int, 0nat)) {
            cross.push("      → J值超卖 (<0)"@)
        } else {
            cross
        },
        None => cross,
    }
}

/// The Bollinger lines: the bands, then where the close stands against them.
pub open spec fn boll_lines(b: BollResult, close: Decimal) -> Seq<Seq<char>> {
    let head = seq![
        "BOLL: 上轨="@ + val_text(b.upper) + "  中轨="@ + val_text(b.middle) + "  下轨="@ + val_text(
            b.lower,
        ),
    ];
    match (b.upper, b.lower) {
        (Some(upper), Some(lower)) => if dec_gt(close, upper) {
            head.push("      → 价格突破上轨 (超买)"@)
        } else if dec_gt(lower, close) {
            head.push("      → 价格跌破下轨 (超卖)"@)
        } else {
            match b.middle {
                Some(mid) => if dec_gt(close, mid) {
                    head.push("      → 价格在中轨上方"@)
                } else {
                    head.push("      → 价格在中轨下方"@)
                },
                None => head,
            }
        },
        _ => head,
    }
}

/// The rule between the parts of the report: 60 box-drawing dashes.
pub open spec fn rule_line() -> Seq<char> {
    repeat_char('─', 60)
}

/// The lines of a report.
pub open spec fn report_lines(r: IndicatorReport, code: Seq<char>) -> Seq<Seq<char>> {
    seq![code + " 技术指标报告 ("@ + r.date@ + ")"@, rule_line()] + ma_lines(r.ma@) + macd_lines(r.macd)
        + rsi_lines(r.rsi) + kdj_lines(r.kdj) + boll_lines(r.boll, r.close) + seq![rule_line()]
}

fn push_line(lines: &mut Vec<String>, line: String)
    ensures
        texts_view(final(lines)@) == texts_view(old(lines)@).push(line@),
{
    let ghost before = lines@;
    lines.push(line);
    assert(texts_view(lines@) =~= texts_view(before).push(line@));
}

fn text(s: &str) -> (r: String)
    ensures
        r@ == s@,
{
    String::from_str(s)
}

fn ma_section(ma: &Vec<IndicatorValue>) -> (r: Vec<String>)
    requires
        ma_within_bounds(ma@),
    ensures
        texts_view(r@) == ma_lines(ma@),
{
    let mut parts: Vec<String> = Vec::new();
    let mut known = true;
    let mut i: usize = 0;
    assert(ma@.take(0) =~= Seq::<IndicatorValue>::empty());
    assert(texts_view(parts@) =~= Seq::<Seq<char>>::empty());
    while i < ma.len()
        invariant
            0 <= i <= ma@.len(),
            texts_view(parts@) == ma_parts(ma@.take(i as int)),
            known == all_ma_known(ma@.take(i as int)),
        decreases ma.len() - i,
    {
        assert(ma@.take(i + 1).drop_last() =~= ma@.take(i as int));
        assert(ma@.take(i + 1).last() == ma@[i as int]);
        match ma[i].value {
            Some(d) => {
                let mut p = ma[i].name.clone();
                push_str(&mut p, ": ");
                let v = format_2dp(&d);
                push_str(&mut p, v.as_str());
                push_line(&mut parts, p);
            },
            None => {
                known = false;
            },
        }
        proof {
            if known {
                assert forall|k: int| 0 <= k < i + 1 implies (#[trigger] ma@.take(i + 1)[k]).value is Some by {
                    if k < i {
                        assert(ma@.take(i + 1)[k] == ma@.take(i as int)[k]);
                    }
                }
            } else {
                if ma[i as int].value is Some {
                    let w = choose|k: int| 0 <= k < i && !((#[trigger] ma@.take(i as int)[k]).value is Some);
                    assert(ma@.take(i + 1)[w] == ma@.take(i as int)[w]);
                }
            }
        }
        i += 1;
    }
    assert(ma@.take(i as int) =~= ma@);
    let mut out: Vec<String> = Vec::new();
    if parts.len() == 0 {
        assert(texts_view(out@) =~= Seq::<Seq<char>>::empty());
        return out;
    }
    let mut head = text("MA:   ");
    let joined = join_strings(&parts, "  ");
    push_str(&mut head, joined.as_str());
    push_line(&mut out, head);
    if known {
        assert(ma@[0].value is Some && ma@[1].value is Some);
        let v0 = ma[0].value.unwrap();
        let v1 = ma[1].value.unwrap();
        if v0.gt(&v1) {
            assert(ma@[2].value is Some);
            let v2 = ma[2].value.unwrap();
            if v1.gt(&v2) {
                push_line(&mut out, text("      → 多头排列 (MA5 > MA10 > MA20)"));
            }
        } else if v0.lt(&v1) {
            assert(ma@[2].value is Some);
            let v2 = ma[2].value.unwrap();
            if v1.lt(&v2) {
                push_line(&mut out, text("      → 空头排列 (MA5 < MA10 < MA20)"));
            }
        }
    }
    out
}

fn macd_section(m: &MacdResult) -> (r: Vec<String>)
    ensures
        texts_view(r@) == macd_lines(*m),
{
    let mut out: Vec<String> = Vec::new();
    let mut head = text("MACD: DIF=");
    push_str(&mut head, fmt_val(m.dif).as_str());
    push_str(&mut head, "  DEA=");
    push_str(&mut head, fmt_val(m.dea).as_str());
    push_str(&mut head, "  柱=");
    push_str(&mut head, fmt_val(m.histogram).as_str());
    assert(texts_view(out@) =~= Seq::<Seq<char>>::empty());
    push_line(&mut out, head);
    if let (Some(dif), Some(dea)) = (m.dif, m.dea) {
        if dif.gt(&dea) {
            push_line(&mut out, text("      → DIF在DEA上方 (金叉/多头)"));
        } else {
            push_line(&mut out, text("      → DIF在DEA下方 (死叉/空头)"));
        }
    }
    out
}

fn rsi_section(rsi: Option<Decimal>) -> (r: Vec<String>)
    ensures
        texts_view(r@) == rsi_lines(rsi),
{
    let mut out: Vec<String> = Vec::new();
    let mut head = text("RSI:  ");
    push_str(&mut head, fmt_val(rsi).as_str());
    assert(texts_view(out@) =~= Seq::<Seq<char>>::empty());
    push_line(&mut out, head);
    if let Some(x) = rsi {
        if x.gt(&Decimal::from_i64(70)) {
            push_line(&mut out, text("      → 超买区域 (>70)"));
        } else if x.lt(&Decimal::from_i64(30)) {
            push_line(&mut out, text("      → 超卖区域 (<30)"));
        } else {
            push_line(&mut out, text("      → 中性区域"));
        }
    }
    out
}

fn kdj_section(k: &KdjResult) -> (r: Vec<String>)
    ensures
        texts_view(r@) == kdj_lines(*k),
{
    let mut out: Vec<String> = Vec::new();
    let mut head = text("KDJ:  K=");
    push_str(&mut head, fmt_val(k.k).as_str());
    push_str(&mut head, "  D=");
    push_str(&mut head, fmt_val(k.d).as_str());
    push_str(&mut head, "  J=");
    push_str(&mut head, fmt_val(k.j).as_str());
    assert(texts_view(out@) =~= Seq::<Seq<char>>::empty());
    push_line(&mut out, head);
    if let (Some(kv), Some(dv)) = (k.k, k.d) {
        if kv.gt(&dv) {
            push_line(&mut out, text("      → K在D上方 (金叉)"));
        } else {
            push_line(&mut out, text("      → K在D下方 (死叉)"));
        }
    }
    if let Some(j) = k.j {
        if j.gt(&Decimal::from_i64(100)) {
            push_line(&mut out, text("      → J值超买 (>100)"));
        } else if j.lt(&Decimal::zero()) {
            push_line(&mut out, text("      → J值超卖 (<0)"));
        }
    }
    out
}

fn boll_section(b: &BollResult, close: &Decimal) -> (r: Vec<String>)
    ensures
        texts_view(r@) == boll_lines(*b, *close),
{
    let mut out: Vec<String> = Vec::new();
    let mut head = text("BOLL: 上轨=");
    push_str(&mut head, fmt_val(b.upper).as_str());
    push_str(&mut head, "  中轨=");
    push_str(&mut head, fmt_val(b.middle).as_str());
    push_str(&mut head, "  下轨=");
    push_str(&mut head, fmt_val(b.lower).as_str());
    assert(texts_view(out@) =~= Seq::<Seq<char>>::empty());
    push_line(&mut out, head);
    if let (Some(upper), Some(lower)) = (b.upper, b.lower) {
        if close.gt(&upper) {
            push_line(&mut out, text("      → 价格突破上轨 (超买)"));
        } else if close.lt(&lower) {
            push_line(&mut out, text("      → 价格跌破下轨 (超卖)"));
        } else if let Some(mid) = b.middle {
            if close.gt(&mid) {
                push_line(&mut out, text("      → 价格在中轨上方"));
            } else {
                push_line(&mut out, text("      → 价格在中轨下方"));
            }
        }
    }
    out
}

fn append_lines(out: &mut Vec<String>, more: Vec<String>)
    ensures
        texts_view(final(out)@) == texts_view(old(out)@) + texts_view(more@),
{
    let ghost start = texts_view(out@);
    let mut i: usize = 0;
    let mut more = more;
    let ghost all = more@;
    assert(all.take(0) =~= Seq::<String>::empty());
    assert(start + texts_view(all.take(0)) =~= start);
    while i < more.len()
        invariant
            0 <= i <= more@.len(),
            more@ == all,
            texts_view(out@) == start + texts_view(all.take(i as int)),
        decreases more.len() - i,
    {
        let line = more[i].clone();
        assert(line@ == all[i as int]@);
        push_line(out, line);
        assert(texts_view(all.take(i + 1)) =~= texts_view(all.take(i as int)).push(all[i as int]@));
        i += 1;
    }
    assert(all.take(i as int) =~= all);
}

fn rule() -> (r: String)
    ensures
        r@ == rule_line(),
{
    let mut r = String::new();
    push_repeat(&mut r, '─', 60);
    assert(r@ =~= rule_line());
    r
}

/// Writes a report as text: a title with the code and date, a rule, the
/// moving averages, MACD, RSI, KDJ and Bollinger lines with what each says,
/// and a closing rule, joined by line breaks. A report whose moving averages
/// are all known must list at least three of them, or two of equal value.
pub fn format_report(report: &IndicatorReport, code: &str) -> (r: String)
    requires
        ma_within_bounds(report.ma@),
    ensures
        r@ == join_texts(report_lines(*report, code@), "\n"@),
{
    let mut lines: Vec<String> = Vec::new();
    let mut title = text(code);
    push_str(&mut title, " 技术指标报告 (");
    push_str(&mut title, report.date.as_str());
    push_str(&mut title, ")");
    assert(texts_view(lines@) =~= Seq::<Seq<char>>::empty());
    push_line(&mut lines, title);
    push_line(&mut lines, rule());
    append_lines(&mut lines, ma_section(&report.ma));
    append_lines(&mut lines, macd_section(&report.macd));
    append_lines(&mut lines, rsi_section(report.rsi));
    append_lines(&mut lines, kdj_section(&report.kdj));
    append_lines(&mut lines, boll_section(&report.boll, &report.close));
    push_line(&mut lines, rule());
    assert(texts_view(lines@) =~= report_lines(*report, code@));
    join_strings(&lines, "\n")
}

/// The entry of a series at an index, where the series reaches that far.
pub open spec fn entry_at<T>(v: Seq<Option<T>>, i: int) -> Option<T> {
    if 0 <= i < v.len() {
        v[i]
    } else {
        None
    }
}

/// The entry of a series at an index, or the given default.
pub open spec fn entry_or<T>(v: Seq<T>, i: int, default: T) -> T {
    if 0 <= i < v.len() {
        v[i]
    } else {
        default
    }
}

fn value_at(v: &Vec<Option<Decimal>>, i: usize) -> (r: Option<Decimal>)
    ensures
        r == entry_at(v@, i as int),
{
    if i < v.len() {
        v[i]
    } else {
        None
    }
}

fn named(name: &str, value: Option<Decimal>) -> (r: IndicatorValue)
    ensures
        r.name@ == name@,
        r.value == value,
{
    IndicatorValue { name: text(name), value }
}

/// Assembles the report of the latest bar from the indicator series computed
/// over the bars (one entry per bar): MA5, MA10, MA20 and MA60, MACD, RSI, KDJ
/// and Bollinger bands; a series too short for the latest bar gives no value.
/// `None` where there are no bars.
pub fn build_indicator_report(
    bars: &[Bar],
    ma5: &Vec<Option<Decimal>>,
    ma10: &Vec<Option<Decimal>>,
    ma20: &Vec<Option<Decimal>>,
    ma60: &Vec<Option<Decimal>>,
    macd: &Vec<MacdResult>,
    rsi: &Vec<Option<Decimal>>,
    kdj: &Vec<KdjResult>,
    boll: &Vec<BollResult>,
) -> (r: Option<IndicatorReport>)
    ensures
        bars@.len() == 0 ==> r is None,
        bars@.len() > 0 ==> (r matches Some(rep) && {
            let last = bars@.len() - 1;
            &&& rep.ma@.len() == 4
            &&& rep.ma@[0].name@ == "MA5"@ && rep.ma@[0].value == entry_at(ma5@, last)
            &&& rep.ma@[1].name@ == "MA10"@ && rep.ma@[1].value == entry_at(ma10@, last)
            &&& rep.ma@[2].name@ == "MA20"@ && rep.ma@[2].value == entry_at(ma20@, last)
            &&& rep.ma@[3].name@ == "MA60"@ && rep.ma@[3].value == entry_at(ma60@, last)
            &&& rep.macd == entry_or(macd@, last, MacdResult { dif: None, dea: None, histogram: None })
            &&& rep.rsi == entry_at(rsi@, last)
            &&& rep.kdj == entry_or(kdj@, last, KdjResult { k: None, d: None, j: None })
            &&& rep.boll == entry_or(boll@, last, BollResult { upper: None, middle: None, lower: None })
            &&& rep.close == bars@[last].close
            &&& rep.date@ == date_text(bars@[last].date@)
        }),
{
    if bars.len() == 0 {
        return None;
    }
    let last = bars.len() - 1;
    let mut ma: Vec<IndicatorValue> = Vec::new();
    ma.push(named("MA5", value_at(ma5, last)));
    ma.push(named("MA10", value_at(ma10, last)));
    ma.push(named("MA20", value_at(ma20, last)));
    ma.push(named("MA60", value_at(ma60, last)));
    let m = if last < macd.len() {
        macd[last]
    } else {
        MacdResult { dif: None, dea: None, histogram: None }
    };
    let k = if last < kdj.len() {
        kdj[last]
    } else {
        KdjResult { k: None, d: None, j: None }
    };
    let b = if last < boll.len() {
        boll[last]
    } else {
        BollResult { upper: None, middle: None, lower: None }
    };
    Some(
        IndicatorReport {
            ma,
            macd: m,
            rsi: value_at(rsi, last),
            kdj: k,
            boll: b,
            close: bars[last].close,
            date: bars[last].date.to_text(),
        },
    )
}

} // verus!
