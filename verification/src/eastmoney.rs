//! Eastmoney data API: request URLs and the reading of its JSON replies.
//!
//! Sources: stock search (searchapi), financial figures (datacenter), margin
//! trading (the Shanghai and Shenzhen exchanges), research reports (reportapi),
//! institutional holdings (data.eastmoney.com), board, block-trade, release and
//! insider reports, industry indices and quotes (push2) and money-flow history
//! (push2his).
use vstd::prelude::*;
use crate::stock::{StockCode, eastmoney_text};
use crate::text::{
    byte_len, char_width, chars_of, contains_char, cut_index, decimal_digits, has_cut,
    lemma_byte_len_grows, lemma_cut_unique, push_char,
    pieces_view, push_decimal, push_str, remove_char, same_text, split_chars, split_on,
    string_from_chars, string_from_range, without_char,
};
use crate::decimal::{
    Decimal, decimal_mul_result, decimal_parse_result, opt_view, parse_decimal, parse_decimal_or_zero,
    parse_or_zero,
};
use crate::models::{
    BlockTrade, DragonTigerEntry, InsiderTrade, InstitutionHold, MarginData, MarginModel,
    RestrictedShareRelease, margins_view,
};
use crate::json::{
    JsonValue, field_decimal, field_i64, field_opt_decimal, field_text, json_elements, json_get,
    json_text,
};
use crate::error::AstockError;
use vstd::string::StringSliceAdditionalSpecFns;

verus! {

/// Bytes that URL encoding leaves as they are: letters, digits and `-_.~`.
pub open spec fn is_unreserved(b: u8) -> bool {
    (65 <= b <= 90) || (97 <= b <= 122) || (48 <= b <= 57) || b == 45 || b == 95 || b == 46
        || b == 126
}

/// An upper-case hexadecimal digit.
pub open spec fn hex_char(n: int) -> char {
    if n < 10 {
        ((48 + n) as u8) as char
    } else {
        ((55 + n) as u8) as char
    }
}

/// The encoding of one byte: the byte itself, or `%` and two upper-case hex digits.
pub open spec fn encode_byte(b: u8) -> Seq<char> {
    if is_unreserved(b) {
        seq![b as char]
    } else {
        seq!['%', hex_char(b as int / 16), hex_char(b as int % 16)]
    }
}

/// The percent-encoding of a byte string.
pub open spec fn url_encode(bytes: Seq<u8>) -> Seq<char>
    decreases bytes.len(),
{
    if bytes.len() == 0 {
        Seq::empty()
    } else {
        url_encode(bytes.drop_last()) + encode_byte(bytes.last())
    }
}

fn hex_digit(n: u8) -> (c: char)
    requires
        n < 16,
    ensures
        c == hex_char(n as int),
{
    if n < 10 {
        (48u8 + n) as char
    } else {
        (55u8 + n) as char
    }
}

/// Percent-encodes the UTF-8 bytes of a text: letters, digits and `-_.~` stay,
/// every other byte becomes `%XX` with upper-case hex digits.
pub fn encode(s: &str) -> (r: String)
    ensures
        r@ == url_encode(s.spec_bytes()),
{
    let bytes = s.as_bytes();
    let mut r = String::new();
    let mut i: usize = 0;
    while i < bytes.len()
        invariant
            bytes@ == s.spec_bytes(),
            0 <= i <= bytes.len(),
            r@ == url_encode(bytes@.take(i as int)),
        decreases bytes.len() - i,
    {
        let b = bytes[i];
        assert(bytes@.take(i + 1).drop_last() == bytes@.take(i as int));
        if (65 <= b && b <= 90) || (97 <= b && b <= 122) || (48 <= b && b <= 57) || b == 45 || b
            == 95 || b == 46 || b == 126 {
            push_char(&mut r, b as char);
        } else {
            push_char(&mut r, '%');
            push_char(&mut r, hex_digit(b / 16));
            push_char(&mut r, hex_digit(b % 16));
        }
        i += 1;
    }
    assert(bytes@.take(bytes.len() as int) == bytes@);
    r
}

/// Builds the stock search URL.
pub fn build_search_url(query: &str, count: u32) -> (r: String)
    ensures
        r@ == "https://searchapi.eastmoney.com/api/suggest/get?input="@ + url_encode(query.spec_bytes()) + "&type=14&token=D43BF722C8E33BDC906FB84D85E326E8&count="@ + decimal_digits(count as nat),
{
    let mut r = String::new();
    push_str(&mut r, "https://searchapi.eastmoney.com/api/suggest/get?input=");
    let enc = encode(query);
    push_str(&mut r, enc.as_str());
    push_str(&mut r, "&type=14&token=D43BF722C8E33BDC906FB84D85E326E8&count=");
    push_decimal(&mut r, count as u64);
    r
}

/// Builds the URL of the main financial figures of a stock.
pub fn build_financial_url(code: &StockCode) -> (r: String)
    ensures
        r@ == "https://datacenter.eastmoney.com/securities/api/data/v1/get?reportName=RPT_F10_FINANCE_MAINFINADATA&columns=ALL&filter=(SECURITY_CODE%3D%22"@ + code@.1 + "%22)&pageNumber=1&pageSize=4&sortTypes=-1&sortColumns=NOTICE_DATE"@,
{
    let mut r = String::new();
    push_str(&mut r, "https://datacenter.eastmoney.com/securities/api/data/v1/get?reportName=RPT_F10_FINANCE_MAINFINADATA&columns=ALL&filter=(SECURITY_CODE%3D%22");
    push_str(&mut r, code.code());
    push_str(&mut r, "%22)&pageNumber=1&pageSize=4&sortTypes=-1&sortColumns=NOTICE_DATE");
    r
}

/// Builds the URL of the broker research reports on a stock.
pub fn build_research_url(code: &StockCode, page_size: u32) -> (r: String)
    ensures
        r@ == "https://reportapi.eastmoney.com/report/list?industryCode=*&pageSize="@ + decimal_digits(page_size as nat) + "&industry=*&rating=*&ratingChange=*&beginTime=&endTime=&pageNo=1&fields=&qType=0&orgCode=&code="@ + code@.1 + "&rcode=&p=1&pageNum=1&pageNumber=1"@,
{
    let mut r = String::new();
    push_str(&mut r, "https://reportapi.eastmoney.com/report/list?industryCode=*&pageSize=");
    push_decimal(&mut r, page_size as u64);
    push_str(&mut r, "&industry=*&rating=*&ratingChange=*&beginTime=&endTime=&pageNo=1&fields=&qType=0&orgCode=&code=");
    push_str(&mut r, code.code());
    push_str(&mut r, "&rcode=&p=1&pageNum=1&pageNumber=1");
    r
}

/// Builds the URL of the trading-board (dragon-tiger list) entries of a stock.
pub fn build_dragon_tiger_url(code: &StockCode, page_size: u32) -> (r: String)
    ensures
        r@ == "https://datacenter-web.eastmoney.com/api/data/v1/get?reportName=RPT_DAILYBILLBOARD_DETAILSNEW&columns=ALL&filter=(SECURITY_CODE%3D%22"@ + code@.1 + "%22)&pageSize="@ + decimal_digits(page_size as nat) + "&sortTypes=-1&sortColumns=TRADE_DATE&source=WEB&client=WEB"@,
{
    let mut r = String::new();
    push_str(&mut r, "https://datacenter-web.eastmoney.com/api/data/v1/get?reportName=RPT_DAILYBILLBOARD_DETAILSNEW&columns=ALL&filter=(SECURITY_CODE%3D%22");
    push_str(&mut r, code.code());
    push_str(&mut r, "%22)&pageSize=");
    push_decimal(&mut r, page_size as u64);
    push_str(&mut r, "&sortTypes=-1&sortColumns=TRADE_DATE&source=WEB&client=WEB");
    r
}

/// Builds the URL of the block trades of a stock.
pub fn build_block_trade_url(code: &StockCode, page_size: u32) -> (r: String)
    ensures
        r@ == "https://datacenter-web.eastmoney.com/api/data/v1/get?reportName=RPT_DATA_BLOCKTRADE&columns=ALL&filter=(SECURITY_CODE%3D%22"@ + code@.1 + "%22)&pageSize="@ + decimal_digits(page_size as nat) + "&sortTypes=-1&sortColumns=TRADE_DATE&source=WEB&client=WEB"@,
{
    let mut r = String::new();
    push_str(&mut r, "https://datacenter-web.eastmoney.com/api/data/v1/get?reportName=RPT_DATA_BLOCKTRADE&columns=ALL&filter=(SECURITY_CODE%3D%22");
    push_str(&mut r, code.code());
    push_str(&mut r, "%22)&pageSize=");
    push_decimal(&mut r, page_size as u64);
    push_str(&mut r, "&sortTypes=-1&sortColumns=TRADE_DATE&source=WEB&client=WEB");
    r
}

/// Builds the URL of the restricted-share releases of a stock.
pub fn build_restricted_release_url(code: &StockCode, page_size: u32) -> (r: String)
    ensures
        r@ == "https://datacenter-web.eastmoney.com/api/data/v1/get?reportName=RPT_LIFT_STAGE&columns=ALL&filter=(SECURITY_CODE%3D%22"@ + code@.1 + "%22)&pageSize="@ + decimal_digits(page_size as nat) + "&sortTypes=-1&sortColumns=FREE_DATE&source=WEB&client=WEB"@,
{
    let mut r = String::new();
    push_str(&mut r, "https://datacenter-web.eastmoney.com/api/data/v1/get?reportName=RPT_LIFT_STAGE&columns=ALL&filter=(SECURITY_CODE%3D%22");
    push_str(&mut r, code.code());
    push_str(&mut r, "%22)&pageSize=");
    push_decimal(&mut r, page_size as u64);
    push_str(&mut r, "&sortTypes=-1&sortColumns=FREE_DATE&source=WEB&client=WEB");
    r
}

/// Builds the URL of the insider share changes of a stock.
pub fn build_insider_trade_url(code: &StockCode, page_size: u32) -> (r: String)
    ensures
        r@ == "https://datacenter-web.eastmoney.com/api/data/v1/get?reportName=RPT_SHARE_HOLDER_INCREASE&columns=ALL&filter=(SECURITY_CODE%3D%22"@ + code@.1 + "%22)&pageSize="@ + decimal_digits(page_size as nat) + "&sortTypes=-1&sortColumns=END_DATE&source=WEB&client=WEB"@,
{
    let mut r = String::new();
    push_str(&mut r, "https://datacenter-web.eastmoney.com/api/data/v1/get?reportName=RPT_SHARE_HOLDER_INCREASE&columns=ALL&filter=(SECURITY_CODE%3D%22");
    push_str(&mut r, code.code());
    push_str(&mut r, "%22)&pageSize=");
    push_decimal(&mut r, page_size as u64);
    push_str(&mut r, "&sortTypes=-1&sortColumns=END_DATE&source=WEB&client=WEB");
    r
}

/// Builds the URL of the institutional holdings of a stock for a report date.
pub fn build_institution_hold_url(code: &StockCode, report_date: &str, page_size: u32) -> (r: String)
    ensures
        r@ == "https://data.eastmoney.com/dataapi/zlsj/list?date="@ + report_date@ + "&type=1&zjc=0&sortField=HOULD_NUM&sortDirec=1&pageNum=1&pageSize="@ + decimal_digits(page_size as nat) + "&code="@ + code@.1,
{
    let mut r = String::new();
    push_str(&mut r, "https://data.eastmoney.com/dataapi/zlsj/list?date=");
    push_str(&mut r, report_date);
    push_str(&mut r, "&type=1&zjc=0&sortField=HOULD_NUM&sortDirec=1&pageNum=1&pageSize=");
    push_decimal(&mut r, page_size as u64);
    push_str(&mut r, "&code=");
    push_str(&mut r, code.code());
    r
}

/// Builds the URL of the industry prosperity indicators.
pub fn build_industry_index_url(page_size: u32) -> (r: String)
    ensures
        r@ == "https://datacenter-web.eastmoney.com/api/data/v1/get?reportName=RPT_INDUSTRY_INDEX&columns=ALL&filter=(IS_NEWEST%3D%22True%22)&pageSize="@ + decimal_digits(page_size as nat) + "&sortTypes=-1&sortColumns=CHANGE_RATE&source=WEB&client=WEB"@,
{
    let mut r = String::new();
    push_str(&mut r, "https://datacenter-web.eastmoney.com/api/data/v1/get?reportName=RPT_INDUSTRY_INDEX&columns=ALL&filter=(IS_NEWEST%3D%22True%22)&pageSize=");
    push_decimal(&mut r, page_size as u64);
    push_str(&mut r, "&sortTypes=-1&sortColumns=CHANGE_RATE&source=WEB&client=WEB");
    r
}

/// Builds the URL of the industry board quotes.
pub fn build_industry_quote_url(page_size: u32) -> (r: String)
    ensures
        r@ == "https://push2.eastmoney.com/api/qt/clist/get?pn=1&pz="@ + decimal_digits(page_size as nat) + "&po=1&np=1&fltt=2&invt=2&fid=f3&fs=m:90+t:2&fields=f2,f3,f4,f12,f14"@,
{
    let mut r = String::new();
    push_str(&mut r, "https://push2.eastmoney.com/api/qt/clist/get?pn=1&pz=");
    push_decimal(&mut r, page_size as u64);
    push_str(&mut r, "&po=1&np=1&fltt=2&invt=2&fid=f3&fs=m:90+t:2&fields=f2,f3,f4,f12,f14");
    r
}

/// Builds the URL of the daily money-flow history of a stock.
pub fn build_money_flow_history_url(code: &StockCode, days: u32) -> (r: String)
    ensures
        r@ == "https://push2his.eastmoney.com/api/qt/stock/fflow/kline/get?secid="@ + eastmoney_text(code@) + "&fields1=f1,f2,f3,f7&fields2=f51,f52,f53,f54,f55,f56,f57,f58,f59,f60,f61,f62,f63,f64,f65&klt=101&lmt="@ + decimal_digits(days as nat),
{
    let mut r = String::new();
    push_str(&mut r, "https://push2his.eastmoney.com/api/qt/stock/fflow/kline/get?secid=");
    let secid = code.for_eastmoney();
    push_str(&mut r, secid.as_str());
    push_str(&mut r, "&fields1=f1,f2,f3,f7&fields2=f51,f52,f53,f54,f55,f56,f57,f58,f59,f60,f61,f62,f63,f64,f65&klt=101&lmt=");
    push_decimal(&mut r, days as u64);
    r
}

/// Builds the margin-trading URL of a stock: the Shanghai exchange's query for
/// Shanghai codes, the Shenzhen exchange's report for the others. The page size
/// is not used: the exchanges fix their own.
pub fn build_margin_url(code: &StockCode, page_size: u32) -> (r: String)
    ensures
        r@ == if code@.0 == seq!['s', 'h'] {
            "https://query.sse.com.cn/marketdata/tradedata/queryMargin.do?isPagination=true&tabType=mxtype&detailsDate=&stockCode="@ + code@.1 + "&pageHelp.pageSize=5000&pageHelp.pageCount=50&pageHelp.pageNo=1&pageHelp.beginPage=1&pageHelp.cacheSize=1&pageHelp.endPage=50"@
        } else {
            "https://www.szse.cn/api/report/ShowReport/data?SHOWTYPE=JSON&CATALOGID=1837_xxpl&TABKEY=tab2&PAGENO=1&PAGECOUNT=5&txtZqdm="@ + code@.1
        },
{
    let mut r = String::new();
    proof {
        reveal_strlit("sh");
        assert("sh"@ == seq!['s', 'h']);
    }
    if same_text(code.prefix(), "sh") {
        push_str(&mut r, "https://query.sse.com.cn/marketdata/tradedata/queryMargin.do?isPagination=true&tabType=mxtype&detailsDate=&stockCode=");
        push_str(&mut r, code.code());
        push_str(&mut r, "&pageHelp.pageSize=5000&pageHelp.pageCount=50&pageHelp.pageNo=1&pageHelp.beginPage=1&pageHelp.cacheSize=1&pageHelp.endPage=50");
    } else {
        push_str(&mut r, "https://www.szse.cn/api/report/ShowReport/data?SHOWTYPE=JSON&CATALOGID=1837_xxpl&TABKEY=tab2&PAGENO=1&PAGECOUNT=5&txtZqdm=");
        push_str(&mut r, code.code());
    }
    r
}

/// Builds the Shenzhen exchange's margin-trading report URL for one trading
/// date (`YYYY-MM-DD`) and a stock.
pub fn build_szse_margin_url(date: &str, code: &StockCode) -> (r: String)
    ensures
        r@ == "https://www.szse.cn/api/report/ShowReport/data?SHOWTYPE=JSON&CATALOGID=1837_xxpl&TABKEY=tab2&PAGENO=1&PAGECOUNT=5&txtDate="@ + date@ + "&txtZqdm="@ + code@.1,
{
    let mut r = String::new();
    push_str(&mut r, "https://www.szse.cn/api/report/ShowReport/data?SHOWTYPE=JSON&CATALOGID=1837_xxpl&TABKEY=tab2&PAGENO=1&PAGECOUNT=5&txtDate=");
    push_str(&mut r, date);
    push_str(&mut r, "&txtZqdm=");
    push_str(&mut r, code.code());
    r
}

// ─── Reading the replies ────────────────────────────────

/// A hit of the stock search.
#[derive(Debug)]
pub struct StockSearchResult {
    pub code: String,
    pub name: String,
    pub pinyin: String,
    /// Market and security type, such as `沪A`.
    pub market: String,
}

/// The model of a search hit: code, name, pinyin, market.
pub open spec fn search_result_view(r: StockSearchResult) -> (Seq<char>, Seq<char>, Seq<char>, Seq<char>) {
    (r.code@, r.name@, r.pinyin@, r.market@)
}

/// The models of a list of search hits.
pub open spec fn search_results_view(v: Seq<StockSearchResult>) -> Seq<(Seq<char>, Seq<char>, Seq<char>, Seq<char>)> {
    v.map_values(|r: StockSearchResult| search_result_view(r))
}

/// A search hit as the reply's schema reads it: an object with the string members
/// `Code`, `Name`, `PinYin`, `SecurityTypeName` and `MktNum` (others ignored), or
/// an array of exactly those five strings in that order.
pub open spec fn search_item(v: JsonValue) -> Option<(Seq<char>, Seq<char>, Seq<char>, Seq<char>)> {
    match v {
        JsonValue::Object(_) => match (
            json_text(json_get(v, "Code"@)),
            json_text(json_get(v, "Name"@)),
            json_text(json_get(v, "PinYin"@)),
            json_text(json_get(v, "SecurityTypeName"@)),
            json_text(json_get(v, "MktNum"@)),
        ) {
            (Some(c), Some(n), Some(p), Some(t), Some(_)) => Some((c, n, p, t)),
            _ => None,
        },
        JsonValue::Array(a) => if a@.len() == 5 {
            match (
                json_text(Some(a@[0])),
                json_text(Some(a@[1])),
                json_text(Some(a@[2])),
                json_text(Some(a@[3])),
                json_text(Some(a@[4])),
            ) {
                (Some(c), Some(n), Some(p), Some(t), Some(_)) => Some((c, n, p, t)),
                _ => None,
            }
        } else {
            None
        },
        _ => None,
    }
}

/// The optional hit list: missing or `null` gives no list, an array gives its
/// elements, anything else is an error (outer `None`).
pub open spec fn search_list(d: Option<JsonValue>) -> Option<Option<Seq<JsonValue>>> {
    match d {
        None => Some(None),
        Some(JsonValue::Null) => Some(None),
        Some(JsonValue::Array(a)) => Some(Some(a@)),
        _ => None,
    }
}

/// The `QuotationCodeTable` part: an object with an optional `Data`, or an
/// array of one element.
pub open spec fn search_table(t: JsonValue) -> Option<Option<Seq<JsonValue>>> {
    match t {
        JsonValue::Object(_) => search_list(json_get(t, "Data"@)),
        JsonValue::Array(a) => if a@.len() == 1 {
            search_list(Some(a@[0]))
        } else {
            None
        },
        _ => None,
    }
}

/// The whole reply: an object with `QuotationCodeTable`, or an array of one element.
pub open spec fn search_reply(v: JsonValue) -> Option<Option<Seq<JsonValue>>> {
    match v {
        JsonValue::Object(_) => match json_get(v, "QuotationCodeTable"@) {
            Some(t) => search_table(t),
            None => None,
        },
        JsonValue::Array(a) => if a@.len() == 1 {
            search_table(a@[0])
        } else {
            None
        },
        _ => None,
    }
}

/// The A-share hits, in order: those whose security type contains `A`.
pub open spec fn a_share_hits(items: Seq<JsonValue>) -> Seq<(Seq<char>, Seq<char>, Seq<char>, Seq<char>)>
    decreases items.len(),
{
    if items.len() == 0 {
        Seq::empty()
    } else {
        let rest = a_share_hits(items.drop_last());
        match search_item(items.last()) {
            Some(h) => if h.3.contains('A') {
                rest.push(h)
            } else {
                rest
            },
            None => rest,
        }
    }
}

/// What the search reply gives: `None` where it does not follow the schema.
pub open spec fn search_outcome(v: JsonValue) -> Option<Seq<(Seq<char>, Seq<char>, Seq<char>, Seq<char>)>> {
    match search_reply(v) {
        None => None,
        Some(None) => Some(Seq::empty()),
        Some(Some(items)) => if forall|i: int| 0 <= i < items.len() ==> (#[trigger] search_item(items[i])) is Some {
            Some(a_share_hits(items))
        } else {
            None
        },
    }
}

fn read_text(v: &JsonValue) -> (r: Option<String>)
    ensures
        match json_text(Some(*v)) {
            Some(s) => r matches Some(x) && x@ == s,
            None => r is None,
        },
{
    match v {
        JsonValue::Str(s) => Some(s.clone()),
        _ => None,
    }
}

fn read_member_text(v: &JsonValue, key: &str) -> (r: Option<String>)
    ensures
        match json_text(json_get(*v, key@)) {
            Some(s) => r matches Some(x) && x@ == s,
            None => r is None,
        },
{
    match v.get(key) {
        Some(m) => read_text(m),
        None => None,
    }
}

fn read_search_item(v: &JsonValue) -> (r: Option<StockSearchResult>)
    ensures
        match search_item(*v) {
            Some(h) => r matches Some(x) && search_result_view(x) == h,
            None => r is None,
        },
{
    let (c, n, p, t, m) = match v {
        JsonValue::Object(_) => (
            read_member_text(v, "Code"),
            read_member_text(v, "Name"),
            read_member_text(v, "PinYin"),
            read_member_text(v, "SecurityTypeName"),
            read_member_text(v, "MktNum"),
        ),
        JsonValue::Array(a) => {
            if a.len() != 5 {
                return None;
            }
            (read_text(&a[0]), read_text(&a[1]), read_text(&a[2]), read_text(&a[3]), read_text(&a[4]))
        },
        _ => {
            return None;
        },
    };
    match (c, n, p, t, m) {
        (Some(code), Some(name), Some(pinyin), Some(market), Some(_)) => Some(
            StockSearchResult { code, name, pinyin, market },
        ),
        _ => None,
    }
}

fn read_search_list(d: Option<&JsonValue>) -> (r: Result<Option<&Vec<JsonValue>>, ()>)
    ensures
        match search_list(
            match d {
                Some(x) => Some(*x),
                None => None,
            },
        ) {
            None => r is Err,
            Some(None) => r == Ok::<Option<&Vec<JsonValue>>, ()>(None),
            Some(Some(items)) => r matches Ok(Some(v)) && v@ == items,
        },
{
    match d {
        None => Ok(None),
        Some(JsonValue::Null) => Ok(None),
        Some(JsonValue::Array(a)) => Ok(Some(a)),
        _ => Err(()),
    }
}

fn read_search_table(t: &JsonValue) -> (r: Result<Option<&Vec<JsonValue>>, ()>)
    ensures
        match search_table(*t) {
            None => r is Err,
            Some(None) => r == Ok::<Option<&Vec<JsonValue>>, ()>(None),
            Some(Some(items)) => r matches Ok(Some(v)) && v@ == items,
        },
{
    match t {
        JsonValue::Object(_) => read_search_list(t.get("Data")),
        JsonValue::Array(a) => if a.len() == 1 {
            read_search_list(Some(&a[0]))
        } else {
            Err(())
        },
        _ => Err(()),
    }
}

/// Reads the stock search reply. The hits whose security type contains `A`
/// are kept, in order; a reply that does not follow the schema is a parse error.
pub fn parse_search_response(resp: &JsonValue) -> (r: Result<Vec<StockSearchResult>, AstockError>)
    ensures
        match search_outcome(*resp) {
            None => r matches Err(AstockError::ParseError(_)),
            Some(hits) => r matches Ok(v) && search_results_view(v@) == hits,
        },
{
    let table = match resp {
        JsonValue::Object(_) => match resp.get("QuotationCodeTable") {
            Some(t) => read_search_table(t),
            None => Err(()),
        },
        JsonValue::Array(a) => if a.len() == 1 {
            read_search_table(&a[0])
        } else {
            Err(())
        },
        _ => Err(()),
    };
    let items = match table {
        Err(()) => {
            return Err(AstockError::ParseError(String::from_str("搜索结果解析失败: 结构不符")));
        },
        Ok(None) => {
            return Ok(Vec::new());
        },
        Ok(Some(items)) => items,
    };
    let mut hits: Vec<StockSearchResult> = Vec::new();
    let mut i: usize = 0;
    assert(items@.take(0) =~= Seq::<JsonValue>::empty());
    while i < items.len()
        invariant
            0 <= i <= items@.len(),
            search_reply(*resp) == Some(Some(items@)),
            forall|k: int| 0 <= k < i ==> (#[trigger] search_item(items@[k])) is Some,
            search_results_view(hits@) == a_share_hits(items@.take(i as int)),
        decreases items.len() - i,
    {
        assert(items@.take(i + 1).drop_last() =~= items@.take(i as int));
        assert(items@.take(i + 1).last() == items@[i as int]);
        match read_search_item(&items[i]) {
            None => {
                return Err(AstockError::ParseError(String::from_str("搜索结果解析失败: 结构不符")));
            },
            Some(hit) => {
                if contains_char(hit.market.as_str(), 'A') {
                    let ghost before = hits@;
                    hits.push(hit);
                    assert(search_results_view(hits@) =~= search_results_view(before).push(
                        search_result_view(hit),
                    ));
                }
            },
        }
        i += 1;
    }
    assert(items@.take(i as int) =~= items@);
    Ok(hits)
}

/// The exchange date `YYYYMMDD` written `YYYY-MM-DD`: a text of 8 bytes is cut
/// after byte 4 and byte 6, other texts stay as they are. `None` where a cut
/// would fall inside a character (slicing the text there panics).
pub open spec fn sse_date(s: Seq<char>) -> Option<Seq<char>> {
    if byte_len(s) != 8 {
        Some(s)
    } else if !has_cut(s, 4) || !has_cut(s, 6) {
        None
    } else {
        let a = cut_index(s, 4);
        let b = cut_index(s, 6);
        Some(s.take(a) + seq!['-'] + s.subrange(a, b) + seq!['-'] + s.skip(b))
    }
}

/// Rewrites an exchange date `YYYYMMDD` as `YYYY-MM-DD`.
pub fn format_sse_date(raw: &str) -> (r: Option<String>)
    ensures
        match sse_date(raw@) {
            Some(d) => r matches Some(x) && x@ == d,
            None => r is None,
        },
{
    let cs = chars_of(raw);
    let mut total: usize = 0;
    let mut cut4: Option<usize> = None;
    let mut cut6: Option<usize> = None;
    let mut i: usize = 0;
    while i < cs.len() && total <= 8
        invariant
            cs@ == raw@,
            0 <= i <= cs.len(),
            total == byte_len(cs@.take(i as int)),
            total <= 12,
            match cut4 {
                Some(k) => k <= i && byte_len(cs@.take(k as int)) == 4,
                None => forall|k: int| 0 <= k < i ==> byte_len(#[trigger] cs@.take(k)) != 4,
            },
            match cut6 {
                Some(k) => k <= i && byte_len(cs@.take(k as int)) == 6,
                None => forall|k: int| 0 <= k < i ==> byte_len(#[trigger] cs@.take(k)) != 6,
            },
        decreases cs.len() - i,
    {
        if total == 4 {
            cut4 = Some(i);
        }
        if total == 6 {
            cut6 = Some(i);
        }
        assert(cs@.take(i + 1).drop_last() == cs@.take(i as int));
        total = total + char_width(cs[i]);
        i += 1;
    }
    if i < cs.len() {
        proof {
            lemma_byte_len_grows(cs@, i as int, cs.len() as int);
            assert(cs@.take(cs.len() as int) == cs@);
        }
        return Some(string_from_chars(&cs));
    }
    assert(cs@.take(i as int) == cs@);
    if total != 8 {
        return Some(string_from_chars(&cs));
    }
    match (cut4, cut6) {
        (Some(a), Some(b)) => {
            proof {
                lemma_cut_unique(cs@, 4, a as int);
                lemma_cut_unique(cs@, 6, b as int);
                if b < a {
                    lemma_byte_len_grows(cs@, b as int, a as int);
                }
            }
            let mut r = string_from_range(&cs, 0, a);
            push_char(&mut r, '-');
            let mid = string_from_range(&cs, a, b);
            push_str(&mut r, mid.as_str());
            push_char(&mut r, '-');
            let tail = string_from_range(&cs, b, cs.len());
            push_str(&mut r, tail.as_str());
            assert(r@ =~= cs@.take(a as int) + seq!['-'] + cs@.subrange(a as int, b as int) + seq!['-']
                + cs@.skip(b as int));
            Some(r)
        },
        _ => {
            proof {
                if has_cut(cs@, 4) && has_cut(cs@, 6) {
                    let a = cut_index(cs@, 4);
                    let b = cut_index(cs@, 6);
                    assert(byte_len(cs@.take(a)) == 4);
                    assert(byte_len(cs@.take(b)) == 6);
                    assert(a != cs.len());
                    assert(b != cs.len());
                }
            }
            None
        },
    }
}

/// The `pageHelp.data` array of an exchange reply.
pub open spec fn page_help_data(resp: JsonValue) -> Option<Seq<JsonValue>> {
    match json_get(resp, "pageHelp"@) {
        Some(p) => json_elements(json_get(p, "data"@)),
        None => None,
    }
}

/// Whether an entry of the Shanghai reply is about the given stock.
pub open spec fn sse_selected(item: JsonValue, code: (Seq<char>, Seq<char>)) -> bool {
    json_text(json_get(item, "stockCode"@)) == Some(code.1)
}

/// The margin figures of one Shanghai entry: skipped (`Some(None)`) without a
/// text `opDate`; `None` where its date cannot be cut.
pub open spec fn sse_row(item: JsonValue, code: (Seq<char>, Seq<char>)) -> Option<Option<MarginModel>> {
    match json_text(json_get(item, "opDate"@)) {
        None => Some(None),
        Some(d) => match sse_date(d) {
            None => None,
            Some(date) => Some(
                Some(
                    MarginModel {
                        code,
                        trade_date: date,
                        fin_balance: field_decimal(item, "rzye"@),
                        fin_buy_amt: field_decimal(item, "rzmre"@),
                        loan_balance: (0int, 0nat),
                        loan_sell_vol: field_decimal(item, "rqmcl"@),
                    },
                ),
            ),
        },
    }
}

/// The margin figures of the Shanghai entries about a stock, in order.
pub open spec fn sse_rows(items: Seq<JsonValue>, code: (Seq<char>, Seq<char>)) -> Option<Seq<MarginModel>>
    decreases items.len(),
{
    if items.len() == 0 {
        Some(Seq::empty())
    } else {
        match sse_rows(items.drop_last(), code) {
            None => None,
            Some(rows) => if !sse_selected(items.last(), code) {
                Some(rows)
            } else {
                match sse_row(items.last(), code) {
                    None => None,
                    Some(None) => Some(rows),
                    Some(Some(m)) => Some(rows.push(m)),
                }
            },
        }
    }
}

proof fn lemma_sse_rows_fail(items: Seq<JsonValue>, code: (Seq<char>, Seq<char>), k: int)
    requires
        0 <= k <= items.len(),
        sse_rows(items.take(k), code) is None,
    ensures
        sse_rows(items, code) is None,
    decreases items.len() - k,
{
    if k < items.len() {
        assert(items.take(k + 1).drop_last() == items.take(k));
        lemma_sse_rows_fail(items, code, k + 1);
    } else {
        assert(items.take(k) == items);
    }
}

fn read_array_member<'a>(v: &'a JsonValue, key: &str) -> (r: Option<&'a Vec<JsonValue>>)
    ensures
        match json_elements(json_get(*v, key@)) {
            Some(a) => r matches Some(x) && x@ == a,
            None => r is None,
        },
{
    match v.get(key) {
        Some(JsonValue::Array(a)) => Some(a),
        _ => None,
    }
}

/// Reads the Shanghai exchange margin reply. The exchange lists every stock of
/// the day; the entries whose `stockCode` is the stock's code are kept, those
/// without a text `opDate` dropped. Balance `rzye`, purchases `rzmre` and lent
/// volume `rqmcl` are read as numbers (zero where missing); the lending balance
/// is zero. `None` where a date of 8 bytes cannot be cut at bytes 4 and 6.
pub fn parse_margin_sse_response(resp: &JsonValue, code: &StockCode) -> (r: Option<Result<Vec<MarginData>, AstockError>>)
    ensures
        match page_help_data(*resp) {
            None => r matches Some(Err(AstockError::ParseError(m))) && m@ == "融资融券数据格式错误"@,
            Some(items) => match sse_rows(items, code@) {
                None => r is None,
                Some(rows) => r matches Some(Ok(v)) && margins_view(v@) == rows,
            },
        },
{
    let items = match resp.get("pageHelp") {
        Some(p) => read_array_member(p, "data"),
        None => None,
    };
    let items = match items {
        Some(a) => a,
        None => {
            return Some(Err(AstockError::ParseError(String::from_str("融资融券数据格式错误"))));
        },
    };
    let target = code.code();
    let mut rows: Vec<MarginData> = Vec::new();
    let mut i: usize = 0;
    assert(items@.take(0) =~= Seq::<JsonValue>::empty());
    while i < items.len()
        invariant
            0 <= i <= items@.len(),
            target@ == code@.1,
            page_help_data(*resp) == Some(items@),
            sse_rows(items@.take(i as int), code@) == Some(margins_view(rows@)),
        decreases items.len() - i,
    {
        let item = &items[i];
        assert(items@.take(i + 1).drop_last() =~= items@.take(i as int));
        assert(items@.take(i + 1).last() == items@[i as int]);
        let selected = match read_member_text(item, "stockCode") {
            Some(s) => same_text(s.as_str(), target),
            None => false,
        };
        if selected {
            match read_member_text(item, "opDate") {
                None => {},
                Some(raw) => match format_sse_date(raw.as_str()) {
                    None => {
                        proof {
                            lemma_sse_rows_fail(items@, code@, i + 1);
                        }
                        return None;
                    },
                    Some(trade_date) => {
                        let m = MarginData {
                            code: code.duplicate(),
                            trade_date,
                            fin_balance: item.decimal_field("rzye"),
                            fin_buy_amt: item.decimal_field("rzmre"),
                            loan_balance: Decimal::zero(),
                            loan_sell_vol: item.decimal_field("rqmcl"),
                        };
                        let ghost before = rows@;
                        rows.push(m);
                        assert(margins_view(rows@) =~= margins_view(before).push(m@));
                    },
                },
            }
        }
        i += 1;
    }
    assert(items@.take(i as int) =~= items@);
    Some(Ok(rows))
}

/// A Shenzhen amount: a text with thousands separators, or a number, in units
/// of 100 million yuan; zero where neither reads.
pub open spec fn szse_figure(item: JsonValue, key: Seq<char>) -> (int, nat) {
    match json_get(item, key) {
        Some(JsonValue::Str(s)) => parse_or_zero(without_char(s@, ',')),
        Some(JsonValue::Number(n)) => match opt_view(n.decimal_value) {
            Some(d) => d,
            None => (0int, 0nat),
        },
        _ => (0int, 0nat),
    }
}

/// A Shenzhen amount in yuan; `None` where the product overflows.
pub open spec fn szse_amount(item: JsonValue, key: Seq<char>) -> Option<(int, nat)> {
    decimal_mul_result(szse_figure(item, key), (100000000int, 0nat))
}

/// The margin figures of one Shenzhen entry: balance `jrrzye`, purchases
/// `jrrzmr`, lending balance `jrrjye`, lent volume `jrrjmc`; no date.
pub open spec fn szse_row(item: JsonValue, code: (Seq<char>, Seq<char>)) -> Option<MarginModel> {
    match (
        szse_amount(item, "jrrzye"@),
        szse_amount(item, "jrrzmr"@),
        szse_amount(item, "jrrjye"@),
        szse_amount(item, "jrrjmc"@),
    ) {
        (Some(a), Some(b), Some(c), Some(d)) => Some(
            MarginModel {
                code,
                trade_date: Seq::empty(),
                fin_balance: a,
                fin_buy_amt: b,
                loan_balance: c,
                loan_sell_vol: d,
            },
        ),
        _ => None,
    }
}

/// The `data` array of the first element of the Shenzhen reply.
pub open spec fn szse_data(resp: JsonValue) -> Option<Seq<JsonValue>> {
    match resp {
        JsonValue::Array(a) => if a@.len() > 0 {
            json_elements(json_get(a@[0], "data"@))
        } else {
            None
        },
        _ => None,
    }
}

fn szse_figure_of(item: &JsonValue, key: &str) -> (r: Decimal)
    ensures
        r@ == szse_figure(*item, key@),
{
    match item.get(key) {
        Some(JsonValue::Str(s)) => {
            let plain = remove_char(s.as_str(), ',');
            parse_decimal_or_zero(plain.as_str())
        },
        Some(JsonValue::Number(n)) => match n.decimal_value {
            Some(d) => d,
            None => Decimal::zero(),
        },
        _ => Decimal::zero(),
    }
}

fn szse_amount_of(item: &JsonValue, key: &str) -> (r: Option<Decimal>)
    ensures
        opt_view(r) == szse_amount(*item, key@),
{
    let hundred_million = Decimal::from_i64(100000000);
    szse_figure_of(item, key).checked_mul(&hundred_million)
}

/// Reads the Shenzhen exchange margin reply: each entry of the first element's
/// `data` gives a day, with its amounts (in 100 million yuan, thousands
/// separators allowed) converted to yuan and no date. `None` where a product
/// overflows.
pub fn parse_margin_szse_response(resp: &JsonValue, code: &StockCode) -> (r: Option<Result<Vec<MarginData>, AstockError>>)
    ensures
        match szse_data(*resp) {
            None => r matches Some(Err(AstockError::ParseError(m))) && m@ == "融资融券数据格式错误"@,
            Some(items) => if forall|i: int| 0 <= i < items.len() ==> (#[trigger] szse_row(items[i], code@)) is Some {
                r matches Some(Ok(v)) && v@.len() == items.len() && forall|i: int|
                    0 <= i < items.len() ==> Some((#[trigger] v@[i])@) == szse_row(items[i], code@)
            } else {
                r is None
            },
        },
{
    let items = match resp {
        JsonValue::Array(a) => if a.len() > 0 {
            read_array_member(&a[0], "data")
        } else {
            None
        },
        _ => None,
    };
    let items = match items {
        Some(a) => a,
        None => {
            return Some(Err(AstockError::ParseError(String::from_str("融资融券数据格式错误"))));
        },
    };
    let mut rows: Vec<MarginData> = Vec::new();
    for i in 0..items.len()
        invariant
            szse_data(*resp) == Some(items@),
            rows@.len() == i,
            forall|k: int| 0 <= k < i ==> Some((#[trigger] rows@[k])@) == szse_row(items@[k], code@),
            forall|k: int| 0 <= k < i ==> (#[trigger] szse_row(items@[k], code@)) is Some,
    {
        let item = &items[i];
        let a = szse_amount_of(item, "jrrzye");
        let b = szse_amount_of(item, "jrrzmr");
        let c = szse_amount_of(item, "jrrjye");
        let d = szse_amount_of(item, "jrrjmc");
        match (a, b, c, d) {
            (Some(a), Some(b), Some(c), Some(d)) => {
                rows.push(
                    MarginData {
                        code: code.duplicate(),
                        trade_date: String::new(),
                        fin_balance: a,
                        fin_buy_amt: b,
                        loan_balance: c,
                        loan_sell_vol: d,
                    },
                );
            },
            _ => {
                assert(szse_row(items@[i as int], code@) is None);
                return None;
            },
        }
    }
    Some(Ok(rows))
}

/// The `result.data` array of a data-center reply.
pub open spec fn result_data(resp: JsonValue) -> Option<Seq<JsonValue>> {
    match json_get(resp, "result"@) {
        Some(res) => json_elements(json_get(res, "data"@)),
        None => None,
    }
}

fn read_result_data(resp: &JsonValue) -> (r: Option<&Vec<JsonValue>>)
    ensures
        match result_data(*resp) {
            Some(a) => r matches Some(x) && x@ == a,
            None => r is None,
        },
{
    match resp.get("result") {
        Some(res) => read_array_member(res, "data"),
        None => None,
    }
}

/// The explanation of a board entry: `EXPLAIN` where present (empty unless a
/// text), else `EXPLANATION`.
pub open spec fn explain_text(item: JsonValue) -> Seq<char> {
    match json_get(item, "EXPLAIN"@) {
        Some(v) => match json_text(Some(v)) {
            Some(s) => s,
            None => Seq::empty(),
        },
        None => field_text(item, "EXPLANATION"@),
    }
}

/// How a board entry is read from a reply entry.
pub open spec fn dragon_tiger_of(e: DragonTigerEntry, item: JsonValue) -> bool {
    &&& e.code@ == field_text(item, "SECURITY_CODE"@)
    &&& e.name@ == field_text(item, "SECURITY_NAME_ABBR"@)
    &&& e.trade_date@ == field_text(item, "TRADE_DATE"@)
    &&& e.close_price@ == field_decimal(item, "CLOSE_PRICE"@)
    &&& e.change_rate@ == field_decimal(item, "CHANGE_RATE"@)
    &&& e.explanation@ == explain_text(item)
    &&& e.buy_amt@ == field_decimal(item, "BILLBOARD_BUY_AMT"@)
    &&& e.sell_amt@ == field_decimal(item, "BILLBOARD_SELL_AMT"@)
    &&& e.net_buy_amt@ == field_decimal(item, "BILLBOARD_NET_AMT"@)
    &&& e.deal_amt@ == field_decimal(item, "BILLBOARD_DEAL_AMT"@)
}

fn read_dragon_tiger(item: &JsonValue) -> (e: DragonTigerEntry)
    ensures
        dragon_tiger_of(e, *item),
{
    let explanation = match item.get("EXPLAIN") {
        Some(v) => match read_text(v) {
            Some(s) => s,
            None => String::new(),
        },
        None => item.text_field("EXPLANATION"),
    };
    DragonTigerEntry {
        code: item.text_field("SECURITY_CODE"),
        name: item.text_field("SECURITY_NAME_ABBR"),
        trade_date: item.text_field("TRADE_DATE"),
        close_price: item.decimal_field("CLOSE_PRICE"),
        change_rate: item.decimal_field("CHANGE_RATE"),
        explanation,
        buy_amt: item.decimal_field("BILLBOARD_BUY_AMT"),
        sell_amt: item.decimal_field("BILLBOARD_SELL_AMT"),
        net_buy_amt: item.decimal_field("BILLBOARD_NET_AMT"),
        deal_amt: item.decimal_field("BILLBOARD_DEAL_AMT"),
    }
}

/// Reads the trading-board reply: one entry per element of `result.data`.
pub fn parse_dragon_tiger_response(resp: &JsonValue) -> (r: Result<Vec<DragonTigerEntry>, AstockError>)
    ensures
        match result_data(*resp) {
            None => r matches Err(AstockError::ParseError(m)) && m@ == "龙虎榜数据格式错误"@,
            Some(items) => r matches Ok(v) && v@.len() == items.len() && forall|i: int|
                0 <= i < items.len() ==> dragon_tiger_of(#[trigger] v@[i], items[i]),
        },
{
    let items = match read_result_data(resp) {
        Some(a) => a,
        None => {
            return Err(AstockError::ParseError(String::from_str("龙虎榜数据格式错误")));
        },
    };
    let mut out: Vec<DragonTigerEntry> = Vec::new();
    for i in 0..items.len()
        invariant
            out@.len() == i,
            forall|k: int| 0 <= k < i ==> dragon_tiger_of(#[trigger] out@[k], items@[k]),
    {
        out.push(read_dragon_tiger(&items[i]));
    }
    Ok(out)
}

/// How a block trade is read from a reply entry.
pub open spec fn block_trade_of(b: BlockTrade, item: JsonValue) -> bool {
    &&& b.code@ == field_text(item, "SECURITY_CODE"@)
    &&& b.name@ == field_text(item, "SECURITY_NAME_ABBR"@)
    &&& b.trade_date@ == field_text(item, "TRADE_DATE"@)
    &&& b.deal_price@ == field_decimal(item, "DEAL_PRICE"@)
    &&& b.deal_volume@ == field_decimal(item, "DEAL_VOLUME"@)
    &&& b.deal_amt@ == field_decimal(item, "DEAL_AMT"@)
    &&& opt_view(b.premium_ratio) == field_opt_decimal(item, "PREMIUM_RATIO"@)
    &&& b.buyer_name@ == field_text(item, "BUYER_NAME"@)
    &&& b.seller_name@ == field_text(item, "SELLER_NAME"@)
}

fn read_block_trade(item: &JsonValue) -> (b: BlockTrade)
    ensures
        block_trade_of(b, *item),
{
    BlockTrade {
        code: item.text_field("SECURITY_CODE"),
        name: item.text_field("SECURITY_NAME_ABBR"),
        trade_date: item.text_field("TRADE_DATE"),
        deal_price: item.decimal_field("DEAL_PRICE"),
        deal_volume: item.decimal_field("DEAL_VOLUME"),
        deal_amt: item.decimal_field("DEAL_AMT"),
        premium_ratio: item.opt_decimal_field("PREMIUM_RATIO"),
        buyer_name: item.text_field("BUYER_NAME"),
        seller_name: item.text_field("SELLER_NAME"),
    }
}

/// Reads the block-trade reply: one trade per element of `result.data`.
pub fn parse_block_trade_response(resp: &JsonValue) -> (r: Result<Vec<BlockTrade>, AstockError>)
    ensures
        match result_data(*resp) {
            None => r matches Err(AstockError::ParseError(m)) && m@ == "大宗交易数据格式错误"@,
            Some(items) => r matches Ok(v) && v@.len() == items.len() && forall|i: int|
                0 <= i < items.len() ==> block_trade_of(#[trigger] v@[i], items[i]),
        },
{
    let items = match read_result_data(resp) {
        Some(a) => a,
        None => {
            return Err(AstockError::ParseError(String::from_str("大宗交易数据格式错误")));
        },
    };
    let mut out: Vec<BlockTrade> = Vec::new();
    for i in 0..items.len()
        invariant
            out@.len() == i,
            forall|k: int| 0 <= k < i ==> block_trade_of(#[trigger] out@[k], items@[k]),
    {
        out.push(read_block_trade(&items[i]));
    }
    Ok(out)
}

/// How a share release is read from a reply entry.
pub open spec fn release_of(r: RestrictedShareRelease, item: JsonValue) -> bool {
    &&& r.code@ == field_text(item, "SECURITY_CODE"@)
    &&& r.name@ == field_text(item, "SECURITY_NAME_ABBR"@)
    &&& r.free_date@ == field_text(item, "FREE_DATE"@)
    &&& r.free_shares@ == field_decimal(item, "CURRENT_FREE_SHARES"@)
    &&& r.free_market_cap@ == field_decimal(item, "LIFT_MARKET_CAP"@)
    &&& r.free_type@ == field_text(item, "FREE_SHARES_TYPE"@)
}

fn read_release(item: &JsonValue) -> (r: RestrictedShareRelease)
    ensures
        release_of(r, *item),
{
    RestrictedShareRelease {
        code: item.text_field("SECURITY_CODE"),
        name: item.text_field("SECURITY_NAME_ABBR"),
        free_date: item.text_field("FREE_DATE"),
        free_shares: item.decimal_field("CURRENT_FREE_SHARES"),
        free_market_cap: item.decimal_field("LIFT_MARKET_CAP"),
        free_type: item.text_field("FREE_SHARES_TYPE"),
    }
}

/// The releases listed by a reply: none where `result` is missing or `null`,
/// the elements of `result.data` where it is an array, otherwise an error.
pub open spec fn release_items(resp: JsonValue) -> Option<Seq<JsonValue>> {
    match json_get(resp, "result"@) {
        None => Some(Seq::empty()),
        Some(JsonValue::Null) => Some(Seq::empty()),
        Some(res) => json_elements(json_get(res, "data"@)),
    }
}

/// Reads the restricted-share release reply. A reply without a `result` (or
/// with `null`) lists no release.
pub fn parse_restricted_release_response(resp: &JsonValue) -> (r: Result<Vec<RestrictedShareRelease>, AstockError>)
    ensures
        match release_items(*resp) {
            None => r matches Err(AstockError::ParseError(m)) && m@ == "解禁数据格式错误"@,
            Some(items) => r matches Ok(v) && v@.len() == items.len() && forall|i: int|
                0 <= i < items.len() ==> release_of(#[trigger] v@[i], items[i]),
        },
{
    let res = match resp.get("result") {
        None => {
            return Ok(Vec::new());
        },
        Some(res) => res,
    };
    if res.is_null() {
        return Ok(Vec::new());
    }
    let items = match read_array_member(res, "data") {
        Some(a) => a,
        None => {
            return Err(AstockError::ParseError(String::from_str("解禁数据格式错误")));
        },
    };
    let mut out: Vec<RestrictedShareRelease> = Vec::new();
    for i in 0..items.len()
        invariant
            out@.len() == i,
            forall|k: int| 0 <= k < i ==> release_of(#[trigger] out@[k], items@[k]),
    {
        out.push(read_release(&items[i]));
    }
    Ok(out)
}

/// How an insider trade is read from a reply entry.
pub open spec fn insider_of(t: InsiderTrade, item: JsonValue) -> bool {
    &&& t.code@ == field_text(item, "SECURITY_CODE"@)
    &&& t.name@ == field_text(item, "SECURITY_NAME_ABBR"@)
    &&& t.holder_name@ == field_text(item, "HOLDER_NAME"@)
    &&& t.direction@ == field_text(item, "DIRECTION"@)
    &&& t.change_num@ == field_decimal(item, "CHANGE_NUM"@)
    &&& opt_view(t.change_rate) == field_opt_decimal(item, "CHANGE_RATE"@)
    &&& t.end_date@ == field_text(item, "END_DATE"@)
    &&& opt_view(t.after_holder_num) == field_opt_decimal(item, "AFTER_HOLDER_NUM"@)
}

fn read_insider(item: &JsonValue) -> (t: InsiderTrade)
    ensures
        insider_of(t, *item),
{
    InsiderTrade {
        code: item.text_field("SECURITY_CODE"),
        name: item.text_field("SECURITY_NAME_ABBR"),
        holder_name: item.text_field("HOLDER_NAME"),
        direction: item.text_field("DIRECTION"),
        change_num: item.decimal_field("CHANGE_NUM"),
        change_rate: item.opt_decimal_field("CHANGE_RATE"),
        end_date: item.text_field("END_DATE"),
        after_holder_num: item.opt_decimal_field("AFTER_HOLDER_NUM"),
    }
}

/// Reads the insider-trade reply: one trade per element of `result.data`.
pub fn parse_insider_trade_response(resp: &JsonValue) -> (r: Result<Vec<InsiderTrade>, AstockError>)
    ensures
        match result_data(*resp) {
            None => r matches Err(AstockError::ParseError(m)) && m@ == "高管增减持数据格式错误"@,
            Some(items) => r matches Ok(v) && v@.len() == items.len() && forall|i: int|
                0 <= i < items.len() ==> insider_of(#[trigger] v@[i], items[i]),
        },
{
    let items = match read_result_data(resp) {
        Some(a) => a,
        None => {
            return Err(AstockError::ParseError(String::from_str("高管增减持数据格式错误")));
        },
    };
    let mut out: Vec<InsiderTrade> = Vec::new();
    for i in 0..items.len()
        invariant
            out@.len() == i,
            forall|k: int| 0 <= k < i ==> insider_of(#[trigger] out@[k], items@[k]),
    {
        out.push(read_insider(&items[i]));
    }
    Ok(out)
}

/// Whether a holdings entry has a text `SECURITY_CODE` (the others are dropped).
pub open spec fn has_code(item: JsonValue) -> bool {
    json_text(json_get(item, "SECURITY_CODE"@)) is Some
}

/// The entries that have a code, in order.
pub open spec fn coded_items(items: Seq<JsonValue>) -> Seq<JsonValue>
    decreases items.len(),
{
    if items.len() == 0 {
        Seq::empty()
    } else if has_code(items.last()) {
        coded_items(items.drop_last()).push(items.last())
    } else {
        coded_items(items.drop_last())
    }
}

/// How institutional holdings are read from a reply entry; the count is the
/// `i64` reading of `HOULD_NUM` (zero where none) cut to 32 bits.
pub open spec fn holding_of(h: InstitutionHold, item: JsonValue) -> bool {
    &&& h.code@ == field_text(item, "SECURITY_CODE"@)
    &&& h.name@ == field_text(item, "SECURITY_NAME_ABBR"@)
    &&& h.org_type@ == field_text(item, "ORG_TYPE_NAME"@)
    &&& h.hold_num == (match field_i64(item, "HOULD_NUM"@) {
        Some(n) => n,
        None => 0,
    }) as i32
    &&& h.total_shares@ == field_decimal(item, "TOTAL_SHARES"@)
    &&& h.hold_value@ == field_decimal(item, "HOLD_VALUE"@)
    &&& opt_view(h.free_ratio) == field_opt_decimal(item, "FREESHARES_RATIO"@)
    &&& h.hold_change@ == field_text(item, "HOLDCHA"@)
    &&& h.report_date@ == field_text(item, "REPORT_DATE"@)
}

fn read_holding(item: &JsonValue) -> (h: InstitutionHold)
    ensures
        holding_of(h, *item),
{
    let n: i64 = match item.i64_field("HOULD_NUM") {
        Some(n) => n,
        None => 0,
    };
    InstitutionHold {
        code: item.text_field("SECURITY_CODE"),
        name: item.text_field("SECURITY_NAME_ABBR"),
        org_type: item.text_field("ORG_TYPE_NAME"),
        hold_num: n as i32,
        total_shares: item.decimal_field("TOTAL_SHARES"),
        hold_value: item.decimal_field("HOLD_VALUE"),
        free_ratio: item.opt_decimal_field("FREESHARES_RATIO"),
        hold_change: item.text_field("HOLDCHA"),
        report_date: item.text_field("REPORT_DATE"),
    }
}

/// Reads the institutional holdings reply: one record per element of `data`
/// that has a text `SECURITY_CODE`.
pub fn parse_institution_hold_response(resp: &JsonValue) -> (r: Result<Vec<InstitutionHold>, AstockError>)
    ensures
        match json_elements(json_get(*resp, "data"@)) {
            None => r matches Err(AstockError::ParseError(m)) && m@ == "机构持仓数据格式错误"@,
            Some(items) => r matches Ok(v) && v@.len() == coded_items(items).len() && forall|i: int|
                0 <= i < v@.len() ==> holding_of(#[trigger] v@[i], coded_items(items)[i]),
        },
{
    let items = match read_array_member(resp, "data") {
        Some(a) => a,
        None => {
            return Err(AstockError::ParseError(String::from_str("机构持仓数据格式错误")));
        },
    };
    let mut out: Vec<InstitutionHold> = Vec::new();
    let mut i: usize = 0;
    assert(items@.take(0) =~= Seq::<JsonValue>::empty());
    while i < items.len()
        invariant
            0 <= i <= items@.len(),
            out@.len() == coded_items(items@.take(i as int)).len(),
            forall|k: int|
                0 <= k < out@.len() ==> holding_of(#[trigger] out@[k], coded_items(items@.take(i as int))[k]),
        decreases items.len() - i,
    {
        let item = &items[i];
        assert(items@.take(i + 1).drop_last() =~= items@.take(i as int));
        assert(items@.take(i + 1).last() == items@[i as int]);
        if read_member_text(item, "SECURITY_CODE").is_some() {
            out.push(read_holding(item));
        }
        i += 1;
    }
    assert(items@.take(i as int) =~= items@);
    Ok(out)
}

/// A day of money-flow history.
#[derive(Debug)]
pub struct MoneyFlowHistory {
    pub date: String,
    pub main_net_inflow: Decimal,
    pub small_net_inflow: Decimal,
    pub medium_net_inflow: Decimal,
    pub large_net_inflow: Decimal,
}

/// The model of a day of money-flow history.
pub open spec fn flow_view(f: MoneyFlowHistory) -> (Seq<char>, (int, nat), (int, nat), (int, nat), (int, nat)) {
    (f.date@, f.main_net_inflow@, f.small_net_inflow@, f.medium_net_inflow@, f.large_net_inflow@)
}

/// The models of a list of money-flow days.
pub open spec fn flows_view(v: Seq<MoneyFlowHistory>) -> Seq<(Seq<char>, (int, nat), (int, nat), (int, nat), (int, nat))> {
    v.map_values(|f: MoneyFlowHistory| flow_view(f))
}

/// A k-line of the money-flow reply, `date,main,small,medium,large,...`: `None`
/// where it is no text, has fewer than five fields or a figure does not parse.
pub open spec fn flow_line(line: JsonValue) -> Option<(Seq<char>, (int, nat), (int, nat), (int, nat), (int, nat))> {
    match json_text(Some(line)) {
        None => None,
        Some(s) => {
            let f = split_on(s, ',');
            if f.len() < 5 {
                None
            } else {
                match (
                    decimal_parse_result(f[1]),
                    decimal_parse_result(f[2]),
                    decimal_parse_result(f[3]),
                    decimal_parse_result(f[4]),
                ) {
                    (Some(a), Some(b), Some(c), Some(d)) => Some((f[0], a, b, c, d)),
                    _ => None,
                }
            }
        },
    }
}

/// The days of a list of k-lines, in order, leaving out the unreadable ones.
pub open spec fn flow_days(lines: Seq<JsonValue>) -> Seq<(Seq<char>, (int, nat), (int, nat), (int, nat), (int, nat))>
    decreases lines.len(),
{
    if lines.len() == 0 {
        Seq::empty()
    } else {
        match flow_line(lines.last()) {
            Some(d) => flow_days(lines.drop_last()).push(d),
            None => flow_days(lines.drop_last()),
        }
    }
}

/// The k-lines of a money-flow reply: `data` must be an object and its
/// `klines` an array; otherwise the message of the error.
pub open spec fn flow_klines(resp: JsonValue) -> Result<Seq<JsonValue>, Seq<char>> {
    match json_get(resp, "data"@) {
        Some(JsonValue::Object(entries)) => match json_elements(
            json_get(JsonValue::Object(entries), "klines"@),
        ) {
            Some(k) => Ok(k),
            None => Err("资金流klines格式错误"@),
        },
        _ => Err("资金流数据格式错误"@),
    }
}

fn field_number(fields: &Vec<Vec<char>>, i: usize) -> (r: Option<Decimal>)
    requires
        i < fields@.len(),
    ensures
        opt_view(r) == decimal_parse_result(fields@[i as int]@),
{
    let s = string_from_chars(&fields[i]);
    parse_decimal(s.as_str())
}

fn read_flow_line(line: &JsonValue) -> (r: Option<MoneyFlowHistory>)
    ensures
        match flow_line(*line) {
            Some(d) => r matches Some(x) && flow_view(x) == d,
            None => r is None,
        },
{
    let text = match read_text(line) {
        Some(t) => t,
        None => {
            return None;
        },
    };
    let cs = chars_of(text.as_str());
    let fields = split_chars(&cs, ',');
    if fields.len() < 5 {
        return None;
    }
    let ghost f = pieces_view(fields@);
    assert(f[0] == fields@[0]@ && f[1] == fields@[1]@ && f[2] == fields@[2]@);
    assert(f[3] == fields@[3]@ && f[4] == fields@[4]@);
    let a = field_number(&fields, 1);
    let b = field_number(&fields, 2);
    let c = field_number(&fields, 3);
    let d = field_number(&fields, 4);
    match (a, b, c, d) {
        (Some(a), Some(b), Some(c), Some(d)) => Some(
            MoneyFlowHistory {
                date: string_from_chars(&fields[0]),
                main_net_inflow: a,
                small_net_inflow: b,
                medium_net_inflow: c,
                large_net_inflow: d,
            },
        ),
        _ => None,
    }
}

/// Reads the money-flow history reply: each k-line of `data.klines` that is a
/// text of at least five comma-separated fields whose four figures parse gives
/// a day (date, main, small, medium and large net inflow).
pub fn parse_money_flow_history_response(resp: &JsonValue) -> (r: Result<Vec<MoneyFlowHistory>, AstockError>)
    ensures
        match flow_klines(*resp) {
            Err(msg) => r matches Err(AstockError::ParseError(m)) && m@ == msg,
            Ok(lines) => r matches Ok(v) && flows_view(v@) == flow_days(lines),
        },
{
    let data = match resp.get("data") {
        Some(d) => d,
        None => {
            return Err(AstockError::ParseError(String::from_str("资金流数据格式错误")));
        },
    };
    match data {
        JsonValue::Object(_) => {},
        _ => {
            return Err(AstockError::ParseError(String::from_str("资金流数据格式错误")));
        },
    }
    let lines = match read_array_member(data, "klines") {
        Some(a) => a,
        None => {
            return Err(AstockError::ParseError(String::from_str("资金流klines格式错误")));
        },
    };
    let mut out: Vec<MoneyFlowHistory> = Vec::new();
    let mut i: usize = 0;
    assert(lines@.take(0) =~= Seq::<JsonValue>::empty());
    while i < lines.len()
        invariant
            0 <= i <= lines@.len(),
            flows_view(out@) == flow_days(lines@.take(i as int)),
        decreases lines.len() - i,
    {
        assert(lines@.take(i + 1).drop_last() =~= lines@.take(i as int));
        assert(lines@.take(i + 1).last() == lines@[i as int]);
        match read_flow_line(&lines[i]) {
            Some(day) => {
                let ghost before = out@;
                out.push(day);
                assert(flows_view(out@) =~= flows_view(before).push(flow_view(day)));
            },
            None => {},
        }
        i += 1;
    }
    assert(lines@.take(i as int) =~= lines@);
    Ok(out)
}

/// The weekday (Monday 0 .. Sunday 6) `k` days before a day whose weekday is
/// `today`.
pub open spec fn weekday_back(today: int, k: int) -> int {
    (today - k) % 7
}

/// The days back, among the first `n` (today is 0), that fall on a weekday
/// from Monday to Friday, in order.
pub open spec fn trading_days_back(today: int, n: nat) -> Seq<u32>
    decreases n,
{
    if n == 0 {
        Seq::empty()
    } else {
        let before = trading_days_back(today, (n - 1) as nat);
        if weekday_back(today, n - 1) < 5 {
            before.push((n - 1) as u32)
        } else {
            before
        }
    }
}

/// The days to ask the Shenzhen exchange for margin figures, as days back
/// from today: of today and the four days before it, those that are not a
/// Saturday or a Sunday, latest first. `today` is today's weekday counted
/// from Monday as 0.
pub fn szse_margin_days_back(today: u32) -> (r: Vec<u32>)
    ensures
        r@ == trading_days_back(today as int, 5),
{
    let mut r: Vec<u32> = Vec::new();
    let t: u32 = today % 7;
    let mut k: u32 = 0;
    while k < 5
        invariant
            0 <= k <= 5,
            t == today % 7,
            r@ == trading_days_back(today as int, k as nat),
        decreases 5 - k,
    {
        let w: u32 = (t + 7 - k) % 7;
        assert(w == weekday_back(today as int, k as int));
        if w < 5 {
            r.push(k);
        }
        k += 1;
    }
    r
}

/// Gives a date to the Shenzhen margin figures that have none (the exchange
/// leaves it out; the date asked for is the day they are about).
pub fn fill_trade_dates(rows: &mut Vec<MarginData>, date: &str)
    ensures
        final(rows)@.len() == old(rows)@.len(),
        forall|i: int|
            0 <= i < old(rows)@.len() ==> (#[trigger] final(rows)@[i])@ == (MarginModel {
                trade_date: if old(rows)@[i].trade_date@.len() == 0 {
                    date@
                } else {
                    old(rows)@[i].trade_date@
                },
                ..old(rows)@[i]@
            }),
{
    let mut out: Vec<MarginData> = Vec::new();
    for i in 0..rows.len()
        invariant
            out@.len() == i,
            forall|k: int|
                0 <= k < i ==> (#[trigger] out@[k])@ == (MarginModel {
                    trade_date: if rows@[k].trade_date@.len() == 0 {
                        date@
                    } else {
                        rows@[k].trade_date@
                    },
                    ..rows@[k]@
                }),
    {
        let m = &rows[i];
        let trade_date = if m.trade_date.as_str().unicode_len() == 0 {
            String::from_str(date)
        } else {
            m.trade_date.clone()
        };
        out.push(
            MarginData {
                code: m.code.duplicate(),
                trade_date,
                fin_balance: m.fin_balance,
                fin_buy_amt: m.fin_buy_amt,
                loan_balance: m.loan_balance,
                loan_sell_vol: m.loan_sell_vol,
            },
        );
    }
    *rows = out;
}

} // verus!
