//! Tencent K-line API: bar periods, request URLs and the reading of its replies.
//!
//! Daily, weekly and monthly bars:
//! `https://ifzq.gtimg.cn/appstock/app/fqkline/get?param=sh600519,day,2024-01-01,2025-12-01,120,qfq`;
//! minute bars: `https://ifzq.gtimg.cn/appstock/app/kline/mkline?param=sh600519,m5,,10`.
//! The fields of a bar come in the order `[date, open, close, high, low, volume]`:
//! the close stands before the high.
use vstd::prelude::*;
use chrono::Datelike;
use crate::decimal::{Decimal, parse_decimal_or_zero, parse_or_zero};
use crate::error::AstockError;
use crate::json::{JsonValue, json_get, json_text};
use crate::models::{Bar, BarModel, Date, bars_view};
use crate::stock::{StockCode, api_text};
use crate::text::{
    byte_len, chars_of, contains_char, cut_index, decimal_digits, find_cut, has_cut, parse_i64,
    parse_i64_text, push_decimal, push_str, reaches_bytes, same_text, string_from_range,
};

verus! {

/// The period of a K-line bar.
#[derive(Debug, Clone, Copy, PartialEq, Eq)]
pub enum KlineType {
    Day,
    Week,
    Month,
    Min5,
    Min15,
    Min30,
    Min60,
}

/// The period parameter of the Tencent API.
pub open spec fn period_text(k: KlineType) -> Seq<char> {
    match k {
        KlineType::Day => "day"@,
        KlineType::Week => "week"@,
        KlineType::Month => "month"@,
        KlineType::Min5 => "m5"@,
        KlineType::Min15 => "m15"@,
        KlineType::Min30 => "m30"@,
        KlineType::Min60 => "m60"@,
    }
}

/// Minute periods.
pub open spec fn minute_period(k: KlineType) -> bool {
    k is Min5 || k is Min15 || k is Min30 || k is Min60
}

/// The period that a name given on the command line stands for.
pub open spec fn kline_type_of(s: Seq<char>) -> Option<KlineType> {
    if s == "day"@ || s == "d"@ || s == "daily"@ {
        Some(KlineType::Day)
    } else if s == "week"@ || s == "w"@ || s == "weekly"@ {
        Some(KlineType::Week)
    } else if s == "month"@ || s == "m"@ || s == "monthly"@ {
        Some(KlineType::Month)
    } else if s == "m5"@ || s == "5"@ || s == "min5"@ {
        Some(KlineType::Min5)
    } else if s == "m15"@ || s == "15"@ || s == "min15"@ {
        Some(KlineType::Min15)
    } else if s == "m30"@ || s == "30"@ || s == "min30"@ {
        Some(KlineType::Min30)
    } else if s == "m60"@ || s == "60"@ || s == "min60"@ {
        Some(KlineType::Min60)
    } else {
        None
    }
}

impl KlineType {
    /// The period parameter of the Tencent API: `day`, `week`, `month`, `m5`, `m15`, `m30`, `m60`.
    pub fn to_period(&self) -> (r: &'static str)
        ensures
            r@ == period_text(*self),
    {
        match self {
            KlineType::Day => "day",
            KlineType::Week => "week",
            KlineType::Month => "month",
            KlineType::Min5 => "m5",
            KlineType::Min15 => "m15",
            KlineType::Min30 => "m30",
            KlineType::Min60 => "m60",
        }
    }

    /// Whether the period is a minute period.
    pub fn is_minute(&self) -> (r: bool)
        ensures
            r == minute_period(*self),
    {
        matches!(self, KlineType::Min5 | KlineType::Min15 | KlineType::Min30 | KlineType::Min60)
    }

    /// Reads a period name: `day`/`d`/`daily`, `week`/`w`/`weekly`, `month`/`m`/`monthly`,
    /// `m5`/`5`/`min5`, `m15`/`15`/`min15`, `m30`/`30`/`min30`, `m60`/`60`/`min60`.
    pub fn from_str_opt(s: &str) -> (r: Option<KlineType>)
        ensures
            r == kline_type_of(s@),
    {
        if same_text(s, "day") || same_text(s, "d") || same_text(s, "daily") {
            Some(KlineType::Day)
        } else if same_text(s, "week") || same_text(s, "w") || same_text(s, "weekly") {
            Some(KlineType::Week)
        } else if same_text(s, "month") || same_text(s, "m") || same_text(s, "monthly") {
            Some(KlineType::Month)
        } else if same_text(s, "m5") || same_text(s, "5") || same_text(s, "min5") {
            Some(KlineType::Min5)
        } else if same_text(s, "m15") || same_text(s, "15") || same_text(s, "min15") {
            Some(KlineType::Min15)
        } else if same_text(s, "m30") || same_text(s, "30") || same_text(s, "min30") {
            Some(KlineType::Min30)
        } else if same_text(s, "m60") || same_text(s, "60") || same_text(s, "min60") {
            Some(KlineType::Min60)
        } else {
            None
        }
    }
}

/// Every period's own name reads back as that period.
pub proof fn law_period_round_trip(k: KlineType)
    ensures
        kline_type_of(period_text(k)) == Some(k),
{
    reveal_strlit("day");
    reveal_strlit("d");
    reveal_strlit("daily");
    reveal_strlit("week");
    reveal_strlit("w");
    reveal_strlit("weekly");
    reveal_strlit("month");
    reveal_strlit("m");
    reveal_strlit("monthly");
    reveal_strlit("m5");
    reveal_strlit("5");
    reveal_strlit("min5");
    reveal_strlit("m15");
    reveal_strlit("15");
    reveal_strlit("min15");
    reveal_strlit("m30");
    reveal_strlit("30");
    reveal_strlit("min30");
    reveal_strlit("m60");
    reveal_strlit("60");
    reveal_strlit("min60");
    assert("day"@ =~= seq!['d', 'a', 'y']);
    assert("d"@ =~= seq!['d']);
    assert("daily"@ =~= seq!['d', 'a', 'i', 'l', 'y']);
    assert("week"@ =~= seq!['w', 'e', 'e', 'k']);
    assert("w"@ =~= seq!['w']);
    assert("weekly"@ =~= seq!['w', 'e', 'e', 'k', 'l', 'y']);
    assert("month"@ =~= seq!['m', 'o', 'n', 't', 'h']);
    assert("m"@ =~= seq!['m']);
    assert("monthly"@ =~= seq!['m', 'o', 'n', 't', 'h', 'l', 'y']);
    assert("m5"@ =~= seq!['m', '5']);
    assert("5"@ =~= seq!['5']);
    assert("min5"@ =~= seq!['m', 'i', 'n', '5']);
    assert("m15"@ =~= seq!['m', '1', '5']);
    assert("15"@ =~= seq!['1', '5']);
    assert("min15"@ =~= seq!['m', 'i', 'n', '1', '5']);
    assert("m30"@ =~= seq!['m', '3', '0']);
    assert("30"@ =~= seq!['3', '0']);
    assert("min30"@ =~= seq!['m', 'i', 'n', '3', '0']);
    assert("m60"@ =~= seq!['m', '6', '0']);
    assert("60"@ =~= seq!['6', '0']);
    assert("min60"@ =~= seq!['m', 'i', 'n', '6', '0']);
}

/// The text of an optional count: its digits, or nothing.
pub open spec fn count_text(count: Option<u32>) -> Seq<char> {
    match count {
        Some(n) => decimal_digits(n as nat),
        None => Seq::empty(),
    }
}

/// The text of an optional date: the date, or nothing.
pub open spec fn opt_text(s: Option<&str>) -> Seq<char> {
    match s {
        Some(t) => t@,
        None => Seq::empty(),
    }
}

fn push_count(r: &mut String, count: Option<u32>)
    ensures
        final(r)@ == old(r)@ + count_text(count),
{
    match count {
        Some(n) => push_decimal(r, n as u64),
        None => {
            assert(old(r)@ + Seq::<char>::empty() == old(r)@);
        },
    }
}

fn push_opt(r: &mut String, s: Option<&str>)
    ensures
        final(r)@ == old(r)@ + opt_text(s),
{
    match s {
        Some(t) => push_str(r, t),
        None => {
            assert(old(r)@ + Seq::<char>::empty() == old(r)@);
        },
    }
}

/// Builds the URL of daily, weekly or monthly bars:
/// `param=<code>,<period>,<start>,<end>,<count>,<qfq>`, where `qfq` asks for
/// forward-adjusted prices.
pub fn build_daily_kline_url(
    code: &StockCode,
    ktype: &KlineType,
    start_date: Option<&str>,
    end_date: Option<&str>,
    count: Option<u32>,
    qfq: bool,
) -> (r: String)
    ensures
        r@ == "https://ifzq.gtimg.cn/appstock/app/fqkline/get?param="@ + api_text(code@) + ","@
            + period_text(*ktype) + ","@ + opt_text(start_date) + ","@ + opt_text(end_date) + ","@
            + count_text(count) + ","@ + (if qfq {
            "qfq"@
        } else {
            ""@
        }),
{
    let mut r = String::new();
    push_str(&mut r, "https://ifzq.gtimg.cn/appstock/app/fqkline/get?param=");
    let api = code.for_api();
    push_str(&mut r, api.as_str());
    push_str(&mut r, ",");
    push_str(&mut r, ktype.to_period());
    push_str(&mut r, ",");
    push_opt(&mut r, start_date);
    push_str(&mut r, ",");
    push_opt(&mut r, end_date);
    push_str(&mut r, ",");
    push_count(&mut r, count);
    push_str(&mut r, ",");
    let fq = if qfq {
        "qfq"
    } else {
        ""
    };
    push_str(&mut r, fq);
    r
}

/// Builds the URL of minute bars: `param=<code>,<period>,,<count>`.
pub fn build_minute_kline_url(code: &StockCode, ktype: &KlineType, count: Option<u32>) -> (r:
    String)
    ensures
        r@ == "https://ifzq.gtimg.cn/appstock/app/kline/mkline?param="@ + api_text(code@) + ","@
            + period_text(*ktype) + ",,"@ + count_text(count),
{
    let mut r = String::new();
    push_str(&mut r, "https://ifzq.gtimg.cn/appstock/app/kline/mkline?param=");
    let api = code.for_api();
    push_str(&mut r, api.as_str());
    push_str(&mut r, ",");
    push_str(&mut r, ktype.to_period());
    push_str(&mut r, ",,");
    push_count(&mut r, count);
    r
}

/// The reply of the K-line API: status, message and `data`.
#[derive(Debug)]
pub struct TencentKlineResponse {
    pub code: i32,
    pub msg: Option<String>,
    pub data: JsonValue,
}

/// What `chrono::NaiveDate::parse_from_str` gives for a text and a format:
/// (year, month, day), or nothing where the text does not match.
pub uninterp spec fn naive_date_parse(s: Seq<char>, fmt: Seq<char>) -> Option<(int, int, int)>;

/// The model of an optional date.
pub open spec fn opt_date(d: Option<Date>) -> Option<(int, int, int)> {
    match d {
        Some(x) => Some(x@),
        None => None,
    }
}

/// `chrono::NaiveDate::parse_from_str(s, fmt)`: the date that the text gives in
/// the strftime format, or none. Its result is named, not described: it depends
/// on the text and the format alone.
#[verifier::external_body]
pub(crate) fn parse_date_with(s: &str, fmt: &str) -> (r: Option<Date>)
    ensures
        opt_date(r) == naive_date_parse(s@, fmt@),
{
    match chrono::NaiveDate::parse_from_str(s, fmt) {
        Ok(d) => Some(Date { year: d.year(), month: d.month(), day: d.day() }),
        Err(_) => None,
    }
}

/// The member of a stock's data that holds the bars: the period for minute
/// bars, `qfq` and the period for adjusted daily, weekly or monthly bars.
pub open spec fn kline_key(k: KlineType, qfq: bool) -> Seq<char> {
    if minute_period(k) {
        period_text(k)
    } else if qfq {
        "qfq"@ + period_text(k)
    } else {
        period_text(k)
    }
}

/// The date of a bar: `2024-01-02` for day bars, `202401021500` (first 8 bytes)
/// for minute bars. Outer `None` where a text of at least 8 bytes cannot be cut
/// after byte 8 (slicing it there panics); inner `None` where no date is read.
pub open spec fn kline_date(s: Seq<char>) -> Option<Option<(int, int, int)>> {
    if s.contains('-') {
        Some(naive_date_parse(s, "%Y-%m-%d"@))
    } else if byte_len(s) >= 8 {
        if has_cut(s, 8) {
            Some(naive_date_parse(s.take(cut_index(s, 8)), "%Y%m%d"@))
        } else {
            None
        }
    } else {
        Some(None)
    }
}

/// A price of a bar: a string or a number (by its text) read as a decimal, zero
/// where it does not parse.
pub open spec fn kline_number(v: JsonValue) -> (int, nat) {
    match v {
        JsonValue::Str(s) => parse_or_zero(s@),
        JsonValue::Number(n) => parse_or_zero(n.text@),
        _ => (0int, 0nat),
    }
}

/// The volume of a bar: a string read as an `i64`, or a number's `i64` reading;
/// zero otherwise.
pub open spec fn kline_volume(v: JsonValue) -> int {
    match v {
        JsonValue::Str(s) => match parse_i64_text(s@) {
            Some(x) => x,
            None => 0,
        },
        JsonValue::Number(n) => match n.int_value {
            Some(x) => x as int,
            None => 0,
        },
        _ => 0,
    }
}

/// The bar of an entry `[date, open, close, high, low, volume, ...]`: skipped
/// (`Some(None)`) where no date is read, `None` where reading the date panics.
pub open spec fn kline_bar(fields: Seq<JsonValue>, code: (Seq<char>, Seq<char>)) -> Option<Option<BarModel>> {
    let ds = match json_text(Some(fields[0])) {
        Some(s) => s,
        None => Seq::empty(),
    };
    match kline_date(ds) {
        None => None,
        Some(None) => Some(None),
        Some(Some(d)) => Some(
            Some(
                BarModel {
                    code,
                    date: d,
                    open: kline_number(fields[1]),
                    close: kline_number(fields[2]),
                    high: kline_number(fields[3]),
                    low: kline_number(fields[4]),
                    volume: kline_volume(fields[5]),
                    turnover: (0int, 0nat),
                },
            ),
        ),
    }
}

/// The bars of a list of entries, in order: an entry that is no array stops
/// the reading with an error; one with fewer than six fields is skipped.
pub open spec fn kline_bars(items: Seq<JsonValue>, code: (Seq<char>, Seq<char>)) -> Option<Result<Seq<BarModel>, Seq<char>>>
    decreases items.len(),
{
    if items.len() == 0 {
        Some(Ok(Seq::empty()))
    } else {
        match kline_bars(items.drop_last(), code) {
            None => None,
            Some(Err(m)) => Some(Err(m)),
            Some(Ok(bars)) => match items.last() {
                JsonValue::Array(f) => if f@.len() < 6 {
                    Some(Ok(bars))
                } else {
                    match kline_bar(f@, code) {
                        None => None,
                        Some(None) => Some(Ok(bars)),
                        Some(Some(b)) => Some(Ok(bars.push(b))),
                    }
                },
                _ => Some(Err("K线条目不是数组"@)),
            },
        }
    }
}

proof fn lemma_bars_stop(items: Seq<JsonValue>, code: (Seq<char>, Seq<char>), k: int)
    requires
        0 <= k <= items.len(),
        !(kline_bars(items.take(k), code) matches Some(Ok(_))),
    ensures
        kline_bars(items, code) == kline_bars(items.take(k), code),
    decreases items.len() - k,
{
    if k < items.len() {
        assert(items.take(k + 1).drop_last() == items.take(k));
        lemma_bars_stop(items, code, k + 1);
    } else {
        assert(items.take(k) == items);
    }
}

fn key_of(ktype: &KlineType, qfq: bool) -> (r: String)
    ensures
        r@ == kline_key(*ktype, qfq),
{
    let mut r = String::new();
    if !ktype.is_minute() && qfq {
        push_str(&mut r, "qfq");
    }
    push_str(&mut r, ktype.to_period());
    r
}

fn date_of(s: &str) -> (r: Option<Option<Date>>)
    ensures
        match kline_date(s@) {
            None => r is None,
            Some(d) => r matches Some(x) && opt_date(x) == d,
        },
{
    if contains_char(s, '-') {
        return Some(parse_date_with(s, "%Y-%m-%d"));
    }
    let cs = chars_of(s);
    if !reaches_bytes(&cs, 8) {
        return Some(None);
    }
    match find_cut(&cs, 8) {
        None => None,
        Some(k) => {
            let head = string_from_range(&cs, 0, k);
            assert(head@ == s@.take(k as int));
            Some(parse_date_with(head.as_str(), "%Y%m%d"))
        },
    }
}

fn number_of(v: &JsonValue) -> (r: Decimal)
    ensures
        r@ == kline_number(*v),
{
    match v {
        JsonValue::Str(s) => parse_decimal_or_zero(s.as_str()),
        JsonValue::Number(n) => parse_decimal_or_zero(n.text.as_str()),
        _ => Decimal::zero(),
    }
}

fn volume_of(v: &JsonValue) -> (r: i64)
    ensures
        r as int == kline_volume(*v),
{
    match v {
        JsonValue::Str(s) => {
            let cs = chars_of(s.as_str());
            match parse_i64(&cs) {
                Some(x) => x,
                None => 0,
            }
        },
        JsonValue::Number(n) => match n.int_value {
            Some(x) => x,
            None => 0,
        },
        _ => 0,
    }
}

fn bar_of(fields: &Vec<JsonValue>, code: &StockCode) -> (r: Option<Option<Bar>>)
    requires
        fields@.len() >= 6,
    ensures
        match kline_bar(fields@, code@) {
            None => r is None,
            Some(None) => r == Some(None::<Bar>),
            Some(Some(b)) => r matches Some(Some(x)) && x@ == b,
        },
{
    let ds = match fields[0].as_str() {
        Some(s) => s,
        None => "",
    };
    proof {
        reveal_strlit("");
        assert(""@ =~= Seq::<char>::empty());
    }
    let date = match date_of(ds) {
        None => {
            return None;
        },
        Some(None) => {
            return Some(None);
        },
        Some(Some(d)) => d,
    };
    Some(
        Some(
            Bar {
                code: code.duplicate(),
                date,
                open: number_of(&fields[1]),
                close: number_of(&fields[2]),
                high: number_of(&fields[3]),
                low: number_of(&fields[4]),
                volume: volume_of(&fields[5]),
                turnover: Decimal::zero(),
            },
        ),
    )
}

/// What reading the bars of a reply's `data` gives: `None` where it panics,
/// otherwise the bars or the message of the error.
pub open spec fn kline_result(data: JsonValue, code: (Seq<char>, Seq<char>), k: KlineType, qfq: bool) -> Option<Result<Seq<BarModel>, Seq<char>>> {
    match json_get(data, api_text(code)) {
        None => Some(Err("响应中找不到股票数据"@)),
        Some(obj) => match json_get(obj, kline_key(k, qfq)) {
            None => Some(Err("响应中找不到K线数据字段: "@ + kline_key(k, qfq))),
            Some(JsonValue::Array(items)) => kline_bars(items@, code),
            Some(_) => Some(Err("K线数据不是数组"@)),
        },
    }
}

/// A result of reading bars that matches an outcome: parse errors carry the
/// outcome's message.
pub open spec fn bars_read(r: Option<Result<Vec<Bar>, AstockError>>, o: Option<Result<Seq<BarModel>, Seq<char>>>) -> bool {
    match o {
        None => r is None,
        Some(Err(msg)) => r matches Some(Err(AstockError::ParseError(m))) && m@ == msg,
        Some(Ok(bars)) => r matches Some(Ok(v)) && bars_view(v@) == bars,
    }
}

/// Reads the bars of a K-line reply: `data.<code>.<key>` must be an array of
/// entries `[date, open, close, high, low, volume]` (the close before the
/// high); entries with fewer than six fields or without a readable date are
/// left out, and an entry that is no array is an error. `None` where a date
/// text cannot be cut after its eighth byte.
pub fn parse_kline_data(
    response: &TencentKlineResponse,
    code: &StockCode,
    ktype: &KlineType,
    qfq: bool,
) -> (r: Option<Result<Vec<Bar>, AstockError>>)
    ensures
        bars_read(r, kline_result(response.data, code@, *ktype, qfq)),
{
    let code_key = code.for_api();
    let data_obj = match response.data.get(code_key.as_str()) {
        Some(d) => d,
        None => {
            return Some(Err(AstockError::ParseError(String::from_str("响应中找不到股票数据"))));
        },
    };
    let key = key_of(ktype, qfq);
    let kline_array = match data_obj.get(key.as_str()) {
        Some(a) => a,
        None => {
            let mut m = String::from_str("响应中找不到K线数据字段: ");
            push_str(&mut m, key.as_str());
            return Some(Err(AstockError::ParseError(m)));
        },
    };
    let arr = match kline_array.as_array() {
        Some(a) => a,
        None => {
            return Some(Err(AstockError::ParseError(String::from_str("K线数据不是数组"))));
        },
    };
    let mut bars: Vec<Bar> = Vec::new();
    let mut i: usize = 0;
    assert(arr@.take(0) =~= Seq::<JsonValue>::empty());
    assert(bars_view(bars@) =~= Seq::<BarModel>::empty());
    while i < arr.len()
        invariant
            0 <= i <= arr@.len(),
            json_get(response.data, api_text(code@)) == Some(*data_obj),
            json_get(*data_obj, kline_key(*ktype, qfq)) == Some(*kline_array),
            *kline_array == JsonValue::Array(*arr),
            kline_bars(arr@.take(i as int), code@) == Some(Ok::<Seq<BarModel>, Seq<char>>(bars_view(bars@))),
        decreases arr.len() - i,
    {
        assert(arr@.take(i + 1).drop_last() =~= arr@.take(i as int));
        assert(arr@.take(i + 1).last() == arr@[i as int]);
        let fields = match arr[i].as_array() {
            Some(f) => f,
            None => {
                proof {
                    lemma_bars_stop(arr@, code@, i + 1);
                }
                return Some(Err(AstockError::ParseError(String::from_str("K线条目不是数组"))));
            },
        };
        if fields.len() >= 6 {
            match bar_of(fields, code) {
                None => {
                    proof {
                        lemma_bars_stop(arr@, code@, i + 1);
                    }
                    return None;
                },
                Some(None) => {},
                Some(Some(b)) => {
                    let ghost before = bars@;
                    bars.push(b);
                    assert(bars_view(bars@) =~= bars_view(before).push(b@));
                },
            }
        }
        i += 1;
    }
    assert(arr@.take(i as int) =~= arr@);
    Some(Ok(bars))
}

/// The request URL for bars of a period: the minute URL (by count) for minute
/// periods, the daily URL (dates, count, adjustment) otherwise.
pub fn kline_url(
    code: &StockCode,
    ktype: &KlineType,
    start_date: Option<&str>,
    end_date: Option<&str>,
    count: Option<u32>,
    qfq: bool,
) -> (r: String)
    ensures
        minute_period(*ktype) ==> r@ == "https://ifzq.gtimg.cn/appstock/app/kline/mkline?param="@
            + api_text(code@) + ","@ + period_text(*ktype) + ",,"@ + count_text(count),
        !minute_period(*ktype) ==> r@ == "https://ifzq.gtimg.cn/appstock/app/fqkline/get?param="@
            + api_text(code@) + ","@ + period_text(*ktype) + ","@ + opt_text(start_date) + ","@
            + opt_text(end_date) + ","@ + count_text(count) + ","@ + (if qfq {
            "qfq"@
        } else {
            ""@
        }),
{
    if ktype.is_minute() {
        build_minute_kline_url(code, ktype, count)
    } else {
        build_daily_kline_url(code, ktype, start_date, end_date, count, qfq)
    }
}

/// Reads a K-line reply: a status other than 0 is an API error carrying the
/// reply's message (`未知错误` where it has none); otherwise its bars are read.
pub fn read_kline_reply(
    response: &TencentKlineResponse,
    code: &StockCode,
    ktype: &KlineType,
    qfq: bool,
) -> (r: Option<Result<Vec<Bar>, AstockError>>)
    ensures
        response.code != 0 ==> (r matches Some(Err(AstockError::ApiError(m))) && m@ == (match response.msg {
            Some(s) => s@,
            None => "未知错误"@,
        })),
        response.code == 0 ==> bars_read(r, kline_result(response.data, code@, *ktype, qfq)),
{
    if response.code != 0 {
        let m = match &response.msg {
            Some(s) => s.clone(),
            None => String::from_str("未知错误"),
        };
        return Some(Err(AstockError::ApiError(m)));
    }
    parse_kline_data(response, code, ktype, qfq)
}

/// The bar an entry of a reply gives: an array of at least six fields whose
/// date reads; none for any other entry.
pub open spec fn entry_bar(item: JsonValue, code: (Seq<char>, Seq<char>)) -> Option<BarModel> {
    match item {
        JsonValue::Array(f) => if f@.len() >= 6 {
            match kline_bar(f@, code) {
                Some(Some(b)) => Some(b),
                _ => None,
            }
        } else {
            None
        },
        _ => None,
    }
}

/// How many entries give a bar.
pub open spec fn count_entry_bars(items: Seq<JsonValue>, code: (Seq<char>, Seq<char>)) -> nat
    decreases items.len(),
{
    if items.len() == 0 {
        0
    } else {
        count_entry_bars(items.drop_last(), code) + if entry_bar(items.last(), code) is Some {
            1nat
        } else {
            0nat
        }
    }
}

/// Where the bars read from a list of entries come from: the positions of the
/// entries that give them, in increasing order.
pub open spec fn bars_from_positions(
    items: Seq<JsonValue>,
    code: (Seq<char>, Seq<char>),
    bars: Seq<BarModel>,
    idx: Seq<int>,
) -> bool {
    &&& idx.len() == bars.len()
    &&& forall|k: int|
        0 <= k < idx.len() ==> 0 <= #[trigger] idx[k] < items.len() && entry_bar(items[idx[k]], code) == Some(
            bars[k],
        )
    &&& forall|k1: int, k2: int| 0 <= k1 < k2 < idx.len() ==> #[trigger] idx[k1] < #[trigger] idx[k2]
}

proof fn lemma_kline_positions(items: Seq<JsonValue>, code: (Seq<char>, Seq<char>)) -> (idx: Seq<int>)
    requires
        kline_bars(items, code) matches Some(Ok(_)),
    ensures
        kline_bars(items, code) matches Some(Ok(bars)) && bars_from_positions(items, code, bars, idx)
            && bars.len() == count_entry_bars(items, code),
        forall|k: int| 0 <= k < idx.len() ==> #[trigger] idx[k] < items.len(),
    decreases items.len(),
{
    if items.len() == 0 {
        Seq::empty()
    } else {
        let prev_items = items.drop_last();
        let prev_idx = lemma_kline_positions(prev_items, code);
        let prev_bars = (kline_bars(prev_items, code)->0)->Ok_0;
        let n = items.len() - 1;
        assert forall|j: int| 0 <= j < n implies items[j] == prev_items[j] by {}
        if entry_bar(items.last(), code) is Some {
            let idx = prev_idx.push(n);
            let bars = (kline_bars(items, code)->0)->Ok_0;
            assert(bars == prev_bars.push(entry_bar(items.last(), code)->0));
            assert forall|k: int| 0 <= k < idx.len() implies 0 <= #[trigger] idx[k] < items.len()
                && entry_bar(items[idx[k]], code) == Some(bars[k]) by {
                if k < prev_idx.len() {
                    assert(idx[k] == prev_idx[k]);
                    assert(items[idx[k]] == prev_items[prev_idx[k]]);
                }
            }
            assert forall|k1: int, k2: int| 0 <= k1 < k2 < idx.len() implies #[trigger] idx[k1] < #[trigger] idx[k2] by {
                if k2 < prev_idx.len() {
                    assert(prev_idx[k1] < prev_idx[k2]);
                } else {
                    assert(prev_idx[k1] < prev_items.len());
                }
            }
            idx
        } else {
            let bars = (kline_bars(items, code)->0)->Ok_0;
            assert(bars == prev_bars);
            assert forall|k: int| 0 <= k < prev_idx.len() implies 0 <= #[trigger] prev_idx[k] < items.len()
                && entry_bar(items[prev_idx[k]], code) == Some(bars[k]) by {
                assert(items[prev_idx[k]] == prev_items[prev_idx[k]]);
            }
            prev_idx
        }
    }
}

/// The bars read from a reply keep the order of its entries: the k-th bar is
/// the bar of the k-th entry that gives one (an array of at least six fields
/// whose date reads), and every such entry gives one bar.
pub proof fn law_kline_order(items: Seq<JsonValue>, code: (Seq<char>, Seq<char>))
    requires
        kline_bars(items, code) matches Some(Ok(_)),
    ensures
        kline_bars(items, code) matches Some(Ok(bars)) && bars.len() == count_entry_bars(items, code)
            && exists|idx: Seq<int>| bars_from_positions(items, code, bars, idx),
{
    let idx = lemma_kline_positions(items, code);
}

} // verus!
