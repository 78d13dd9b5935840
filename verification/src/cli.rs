//! The sub-commands of the command line, and the reading of a list of codes.
use vstd::prelude::*;
use crate::stock::{StockCode, parse_stock_code};
use crate::text::{chars_of, pieces_view, split_chars, split_on, string_from_chars, trim_chars, trimmed};

verus! {

/// Back-testing commands.
#[derive(Debug)]
pub enum BacktestCommands {
    /// Runs a strategy over a stock's daily bars.
    Run { code: String, strategy: String, capital: i64, count: u32 },
    /// Lists the strategies.
    ListStrategies,
}

/// Trade record commands.
#[derive(Debug)]
pub enum TradeCommands {
    /// Records a trade (shares in lots of 100, date `YYYY-MM-DD`).
    Add { code: String, action: String, price: String, shares: i64, date: String, note: String },
    /// Lists trades, by code and by action where given.
    List { code: Option<String>, action: Option<String> },
    /// Deletes a trade.
    Delete { id: i64 },
    /// Sums up the trades.
    Summary,
}

/// Position commands.
#[derive(Debug)]
pub enum PositionCommands {
    /// Lists the positions with live profit.
    List,
    /// Adds a position by hand.
    Add { code: String, shares: i64, avg_cost: String },
    /// Removes a position.
    Remove { code: String },
}

/// Watch list commands.
#[derive(Debug)]
pub enum WatchCommands {
    List,
    Add { code: String },
    Remove { code: String },
    /// Live quotes of the watch list.
    Quote,
}

/// Monitor commands.
#[derive(Debug)]
pub enum MonitorCommands {
    /// Starts monitoring, checking every `interval` seconds.
    Start { interval: u64 },
}

/// The codes of a comma-separated list, in order: each piece without
/// surrounding white space, leaving out the pieces that are no valid code.
pub open spec fn codes_in(pieces: Seq<Seq<char>>) -> Seq<(Seq<char>, Seq<char>)>
    decreases pieces.len(),
{
    if pieces.len() == 0 {
        Seq::empty()
    } else {
        match parse_stock_code(trimmed(pieces.last())) {
            Ok(c) => codes_in(pieces.drop_last()).push(c),
            Err(_) => codes_in(pieces.drop_last()),
        }
    }
}

/// The models of a list of codes.
pub open spec fn stock_codes_view(v: Seq<StockCode>) -> Seq<(Seq<char>, Seq<char>)> {
    v.map_values(|c: StockCode| c@)
}

/// Reads a comma-separated list of stock codes (`600519,000001`), leaving out
/// what is no valid code.
pub fn parse_code_list(codes: &str) -> (r: Vec<StockCode>)
    ensures
        stock_codes_view(r@) == codes_in(split_on(codes@, ',')),
{
    let cs = chars_of(codes);
    let pieces = split_chars(&cs, ',');
    let ghost all = pieces_view(pieces@);
    let mut out: Vec<StockCode> = Vec::new();
    let mut i: usize = 0;
    assert(all.take(0) =~= Seq::<Seq<char>>::empty());
    assert(stock_codes_view(out@) =~= Seq::<(Seq<char>, Seq<char>)>::empty());
    while i < pieces.len()
        invariant
            0 <= i <= pieces@.len(),
            all == pieces_view(pieces@),
            stock_codes_view(out@) == codes_in(all.take(i as int)),
        decreases pieces.len() - i,
    {
        assert(all.take(i + 1).drop_last() =~= all.take(i as int));
        assert(all.take(i + 1).last() == pieces@[i as int]@);
        let piece = trim_chars(&pieces[i]);
        let text = string_from_chars(&piece);
        match StockCode::from_raw(text.as_str()) {
            Ok(c) => {
                let ghost before = out@;
                out.push(c);
                assert(stock_codes_view(out@) =~= stock_codes_view(before).push(c@));
            },
            Err(_) => {},
        }
        i += 1;
    }
    assert(all.take(i as int) =~= all);
    out
}

} // verus!
