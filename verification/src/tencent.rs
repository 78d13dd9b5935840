//! Tencent real-time quotes: the request URL and the reading of the reply.
//!
//! The reply (`http://qt.gtimg.cn/q=sh600519,sz000001`) holds one line per
//! stock, `v_sh600519="1~NAME~600519~1372.99~...";`, whose fields are separated
//! by `~`.
use vstd::prelude::*;
use crate::decimal::{Decimal, decimal_mul_result, parse_decimal_or_zero, parse_or_zero};
use crate::models::{Quote, QuoteModel, quotes_view};
use crate::stock::{StockCode, api_text, parse_stock_code};
use crate::text::{
    chars_of, count_and_find, find_char, find_last, last_index, parse_i64, parse_i64_text,
    pieces_view, push_char, push_str, split_chars, split_on, string_from_chars, sub_chars,
    trim_chars, trim_start_char, trim_start_of, trimmed,
};

verus! {

/// The models of a list of stock codes.
pub open spec fn codes_view(codes: Seq<StockCode>) -> Seq<(Seq<char>, Seq<char>)> {
    codes.map_values(|c: StockCode| c@)
}

/// The API forms of codes, separated by commas.
pub open spec fn join_codes(codes: Seq<(Seq<char>, Seq<char>)>) -> Seq<char>
    decreases codes.len(),
{
    if codes.len() == 0 {
        Seq::empty()
    } else if codes.len() == 1 {
        api_text(codes[0])
    } else {
        join_codes(codes.drop_last()) + seq![','] + api_text(codes.last())
    }
}

/// Builds the real-time quote URL for a list of stocks.
pub fn build_quote_url(codes: &[StockCode]) -> (r: String)
    ensures
        r@ == "http://qt.gtimg.cn/q="@ + join_codes(codes_view(codes@)),
{
    let mut r = String::new();
    push_str(&mut r, "http://qt.gtimg.cn/q=");
    let ghost head = "http://qt.gtimg.cn/q="@;
    assert(codes_view(codes@.take(0)) =~= Seq::<(Seq<char>, Seq<char>)>::empty());
    assert(r@ =~= head + join_codes(codes_view(codes@.take(0))));
    for i in 0..codes.len()
        invariant
            head == "http://qt.gtimg.cn/q="@,
            r@ == head + join_codes(codes_view(codes@.take(i as int))),
    {
        let ghost before = r@;
        let ghost prev = codes_view(codes@.take(i as int));
        let ghost next = codes_view(codes@.take(i + 1));
        assert(next.drop_last() =~= prev);
        assert(next.last() == codes@[i as int]@);
        if i > 0 {
            push_char(&mut r, ',');
        }
        let a = codes[i].for_api();
        push_str(&mut r, a.as_str());
        proof {
            if i > 0 {
                assert(r@ =~= head + (join_codes(prev) + seq![','] + api_text(next.last())));
            } else {
                assert(r@ =~= head + api_text(next[0]));
            }
        }
    }
    assert(codes@.take(codes.len() as int) == codes@);
    r
}

/// What one line of a reply gives: nothing, a failure that ends the reading,
/// or a row.
pub enum LineOutcome<T> {
    Skip,
    Fail,
    Row(T),
}

/// The lines of a reply, each without surrounding white space.
pub open spec fn reply_lines(raw: Seq<char>) -> Seq<Seq<char>> {
    split_on(raw, '\n').map_values(|l: Seq<char>| trimmed(l))
}

/// The code text of a line: what stands before the first `=`, without a leading
/// `v` and the underscores after it (`v_sh600519` gives `sh600519`).
pub open spec fn var_code(line: Seq<char>) -> Seq<char> {
    let name = line.take(find_char(line, '=') as int);
    let stripped = if name.len() > 0 && name[0] == 'v' {
        name.skip(1)
    } else {
        name
    };
    trim_start_char(stripped, '_')
}

/// The volume in shares: the field in lots of 100 (zero where it is no integer).
pub open spec fn tencent_volume(f: Seq<char>) -> int {
    (match parse_i64_text(f) {
        Some(v) => v,
        None => 0,
    }) * 100
}

/// The turnover in yuan: the field in units of ten thousand.
pub open spec fn tencent_turnover(f: Seq<char>) -> Option<(int, nat)> {
    decimal_mul_result(parse_or_zero(f), (10000int, 0nat))
}

/// The quote of a line with at least 39 fields: `None` where the volume or the
/// turnover overflows.
pub open spec fn tencent_row(code: (Seq<char>, Seq<char>), fields: Seq<Seq<char>>) -> Option<
    QuoteModel,
> {
    let volume = tencent_volume(fields[6]);
    if !(i64::MIN <= volume <= i64::MAX) {
        None
    } else {
        match tencent_turnover(fields[37]) {
            None => None,
            Some(turnover) => Some(
                QuoteModel {
                    code,
                    name: fields[1],
                    price: parse_or_zero(fields[3]),
                    prev_close: parse_or_zero(fields[4]),
                    open: parse_or_zero(fields[5]),
                    high: parse_or_zero(fields[33]),
                    low: parse_or_zero(fields[34]),
                    volume,
                    turnover,
                    bid: parse_or_zero(fields[9]),
                    ask: parse_or_zero(fields[19]),
                    bid_vol: None,
                    ask_vol: None,
                    change: parse_or_zero(fields[31]),
                    change_pct: parse_or_zero(fields[32]),
                    high_limit: None,
                    low_limit: None,
                    inner_vol: None,
                    outer_vol: None,
                    open_vol: None,
                    time: Seq::empty(),
                    update_time: None,
                    stock_status: None,
                },
            ),
        }
    }
}

/// What one trimmed line gives. Lines without a quote mark, with fewer than 39
/// fields, without `=` or with an invalid code are skipped; a line with a single
/// quote mark, or whose volume or turnover overflows, fails.
pub open spec fn tencent_line(line: Seq<char>) -> LineOutcome<QuoteModel> {
    let first = find_char(line, '"') as int;
    let last = last_index(line, '"');
    if last < 0 {
        LineOutcome::Skip
    } else if first >= last {
        LineOutcome::Fail
    } else {
        let fields = split_on(line.subrange(first + 1, last), '~');
        if fields.len() < 39 {
            LineOutcome::Skip
        } else if find_char(line, '=') >= line.len() {
            LineOutcome::Skip
        } else {
            match parse_stock_code(var_code(line)) {
                Err(_) => LineOutcome::Skip,
                Ok(code) => match tencent_row(code, fields) {
                    None => LineOutcome::Fail,
                    Some(q) => LineOutcome::Row(q),
                },
            }
        }
    }
}

/// The quotes of a list of lines, in order; `None` where a line fails.
pub open spec fn tencent_rows(lines: Seq<Seq<char>>) -> Option<Seq<QuoteModel>>
    decreases lines.len(),
{
    if lines.len() == 0 {
        Some(Seq::empty())
    } else {
        match tencent_rows(lines.drop_last()) {
            None => None,
            Some(rows) => match tencent_line(lines.last()) {
                LineOutcome::Skip => Some(rows),
                LineOutcome::Fail => None,
                LineOutcome::Row(q) => Some(rows.push(q)),
            },
        }
    }
}

proof fn lemma_rows_fail(lines: Seq<Seq<char>>, k: int)
    requires
        0 <= k <= lines.len(),
        tencent_rows(lines.take(k)) is None,
    ensures
        tencent_rows(lines) is None,
    decreases lines.len() - k,
{
    if k < lines.len() {
        assert(lines.take(k + 1).drop_last() == lines.take(k));
        lemma_rows_fail(lines, k + 1);
    } else {
        assert(lines.take(k) == lines);
    }
}

fn field_decimal(fields: &Vec<Vec<char>>, i: usize) -> (r: Decimal)
    requires
        i < fields@.len(),
    ensures
        r@ == parse_or_zero(pieces_view(fields@)[i as int]),
{
    let s = string_from_chars(&fields[i]);
    parse_decimal_or_zero(s.as_str())
}

fn read_row(code: StockCode, fields: &Vec<Vec<char>>) -> (r: Option<Quote>)
    requires
        fields@.len() >= 39,
    ensures
        match tencent_row(code@, pieces_view(fields@)) {
            Some(q) => r matches Some(x) && x@ == q,
            None => r is None,
        },
{
    let ghost f = pieces_view(fields@);
    let lots: i64 = match parse_i64(&fields[6]) {
        Some(v) => v,
        None => 0,
    };
    assert(f[6] == fields@[6]@);
    if lots < -92233720368547758 || lots > 92233720368547758 {
        return None;
    }
    let volume: i64 = lots * 100;
    let tenk = Decimal::from_i64(10000);
    let raw_turnover = field_decimal(fields, 37);
    let turnover = match raw_turnover.checked_mul(&tenk) {
        Some(t) => t,
        None => {
            return None;
        },
    };
    let q = Quote {
        code,
        name: string_from_chars(&fields[1]),
        price: field_decimal(fields, 3),
        prev_close: field_decimal(fields, 4),
        open: field_decimal(fields, 5),
        high: field_decimal(fields, 33),
        low: field_decimal(fields, 34),
        volume,
        turnover,
        bid: field_decimal(fields, 9),
        ask: field_decimal(fields, 19),
        bid_vol: None,
        ask_vol: None,
        change: field_decimal(fields, 31),
        change_pct: field_decimal(fields, 32),
        high_limit: None,
        low_limit: None,
        inner_vol: None,
        outer_vol: None,
        open_vol: None,
        time: String::new(),
        update_time: None,
        stock_status: None,
    };
    assert(f[1] == fields@[1]@);
    assert(q@ =~= tencent_row(code@, f)->0);
    Some(q)
}

fn read_line(line: &Vec<char>) -> (r: LineOutcome<Quote>)
    ensures
        match tencent_line(line@) {
            LineOutcome::Skip => r is Skip,
            LineOutcome::Fail => r is Fail,
            LineOutcome::Row(q) => r matches LineOutcome::Row(x) && x@ == q,
        },
{
    let last = match find_last(line, '"') {
        None => {
            return LineOutcome::Skip;
        },
        Some(l) => l,
    };
    let (_, first) = count_and_find(line, '"');
    if first >= last {
        return LineOutcome::Fail;
    }
    let content = sub_chars(line, first + 1, last);
    let fields = split_chars(&content, '~');
    if fields.len() < 39 {
        return LineOutcome::Skip;
    }
    let (_, eq) = count_and_find(line, '=');
    if eq >= line.len() {
        return LineOutcome::Skip;
    }
    let name = sub_chars(line, 0, eq);
    assert(name@ == line@.take(eq as int));
    let stripped = if name.len() > 0 && name[0] == 'v' {
        let s = sub_chars(&name, 1, name.len());
        assert(s@ == name@.skip(1));
        s
    } else {
        name
    };
    let code_chars = trim_start_of(&stripped, '_');
    assert(code_chars@ == var_code(line@));
    let code_text = string_from_chars(&code_chars);
    let code = match StockCode::from_raw(code_text.as_str()) {
        Ok(c) => c,
        Err(_) => {
            return LineOutcome::Skip;
        },
    };
    match read_row(code, &fields) {
        Some(q) => LineOutcome::Row(q),
        None => LineOutcome::Fail,
    }
}

/// Reads a Tencent quote reply (decoded text). Each line
/// `v_sh600519="f0~f1~...";` with at least 39 fields and a valid code gives a
/// quote: name = field 1, price 3, previous close 4, open 5, high 33, low 34,
/// volume 6 (lots of 100), turnover 37 (ten thousands of yuan), change 31,
/// change percent 32, bid 9, ask 19; a number that does not parse counts as
/// zero. `None` where a line has a single quote mark or its volume or turnover
/// overflows.
pub fn parse_tencent_quotes(raw: &str, _codes: &[StockCode]) -> (r: Option<Vec<Quote>>)
    ensures
        match tencent_rows(reply_lines(raw@)) {
            Some(rows) => r matches Some(v) && quotes_view(v@) == rows,
            None => r is None,
        },
{
    let chars = chars_of(raw);
    let pieces = split_chars(&chars, '\n');
    let ghost lines = reply_lines(raw@);
    let mut quotes: Vec<Quote> = Vec::new();
    assert(lines.take(0) =~= Seq::<Seq<char>>::empty());
    assert(quotes_view(quotes@) =~= Seq::<QuoteModel>::empty());
    for i in 0..pieces.len()
        invariant
            pieces_view(pieces@) == split_on(raw@, '\n'),
            lines == reply_lines(raw@),
            lines.len() == pieces@.len(),
            tencent_rows(lines.take(i as int)) == Some(quotes_view(quotes@)),
    {
        let line = trim_chars(&pieces[i]);
        assert(pieces_view(pieces@)[i as int] == pieces@[i as int]@);
        assert(line@ == lines[i as int]);
        assert(lines.take(i + 1).drop_last() =~= lines.take(i as int));
        assert(lines.take(i + 1).last() == lines[i as int]);
        match read_line(&line) {
            LineOutcome::Skip => {},
            LineOutcome::Fail => {
                proof {
                    lemma_rows_fail(lines, i + 1);
                }
                return None;
            },
            LineOutcome::Row(q) => {
                let ghost before = quotes@;
                quotes.push(q);
                assert(quotes_view(quotes@) =~= quotes_view(before).push(q@));
            },
        }
    }
    assert(lines.take(pieces.len() as int) =~= lines);
    Some(quotes)
}

} // verus!
