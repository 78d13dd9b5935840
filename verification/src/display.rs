//! What the quote and K-line tables show: colours (red up, green down, as on
//! the A-share market), signed changes and amounts in ten thousands and
//! hundred millions.
use vstd::prelude::*;
use crate::decimal::{
    Decimal, decimal_div_result, decimal_format_2dp, decimal_mul_result, decimal_sub_result,
    format_2dp, value_le, value_lt,
};
use crate::text::push_str;

verus! {

/// The colour of a price change.
#[derive(Debug, Clone, Copy, PartialEq, Eq)]
pub enum PriceColor {
    Red,
    Green,
    White,
}

/// Red for a rise, green for a fall, white otherwise.
pub open spec fn color_of(change: (int, nat)) -> PriceColor {
    if change.0 > 0 {
        PriceColor::Red
    } else if change.0 < 0 {
        PriceColor::Green
    } else {
        PriceColor::White
    }
}

/// The colour of a price change.
pub fn price_color(change: &Decimal) -> (r: PriceColor)
    ensures
        r == color_of(change@),
{
    if change.is_positive() {
        PriceColor::Red
    } else if change.is_negative() {
        PriceColor::Green
    } else {
        PriceColor::White
    }
}

/// A change with two decimals, with a `+` where it is positive.
pub open spec fn signed_text(v: (int, nat)) -> Seq<char> {
    if v.0 > 0 {
        "+"@ + decimal_format_2dp(v)
    } else {
        decimal_format_2dp(v)
    }
}

/// A price change: `+1.94`, `-0.50`, `0.00`.
pub fn fmt_change(change: &Decimal) -> (r: String)
    ensures
        r@ == signed_text(change@),
{
    let mut r = String::new();
    if change.is_positive() {
        push_str(&mut r, "+");
    }
    push_str(&mut r, format_2dp(change).as_str());
    r
}

/// A change in percent: `+0.14%`, `-2.00%`.
pub fn fmt_change_pct(pct: &Decimal) -> (r: String)
    ensures
        r@ == signed_text(pct@) + "%"@,
{
    let mut r = fmt_change(pct);
    push_str(&mut r, "%");
    r
}

/// An amount of money: in hundred millions (`亿`) from 100 million, in ten
/// thousands (`万`) from 10 000, as it is below. `None` where the division
/// reports an overflow.
pub open spec fn amount_text(amount: (int, nat)) -> Option<Seq<char>> {
    if value_le((100000000int, 0nat), amount) {
        match decimal_div_result(amount, (100000000int, 0nat)) {
            Some(q) => Some(decimal_format_2dp(q) + "亿"@),
            None => None,
        }
    } else if value_le((10000int, 0nat), amount) {
        match decimal_div_result(amount, (10000int, 0nat)) {
            Some(q) => Some(decimal_format_2dp(q) + "万"@),
            None => None,
        }
    } else {
        Some(decimal_format_2dp(amount))
    }
}

/// An amount of money, as the tables show it.
pub fn fmt_amount(amount: &Decimal) -> (r: Option<String>)
    ensures
        match amount_text(amount@) {
            Some(t) => r matches Some(s) && s@ == t,
            None => r is None,
        },
{
    let hundred_million = Decimal::from_i64(100000000);
    let ten_thousand = Decimal::from_i64(10000);
    if amount.ge(&hundred_million) {
        match amount.checked_div(&hundred_million) {
            Some(q) => {
                let mut r = format_2dp(&q);
                push_str(&mut r, "亿");
                Some(r)
            },
            None => None,
        }
    } else if amount.ge(&ten_thousand) {
        match amount.checked_div(&ten_thousand) {
            Some(q) => {
                let mut r = format_2dp(&q);
                push_str(&mut r, "万");
                Some(r)
            },
            None => None,
        }
    } else {
        Some(format_2dp(amount))
    }
}

/// The change of a row of the K-line table against the row before: the
/// difference of the closes, and its percent of the earlier close where that
/// is positive (zero otherwise); both zero on the first row. `None` where a
/// step overflows.
pub open spec fn row_change_of(prev_close: Option<(int, nat)>, close: (int, nat)) -> Option<((int, nat), (int, nat))> {
    match prev_close {
        None => Some(((0int, 0nat), (0int, 0nat))),
        Some(p) => match decimal_sub_result(close, p) {
            None => None,
            Some(c) => if value_lt((0int, 0nat), p) {
                match decimal_div_result(c, p) {
                    Some(q) => match decimal_mul_result(q, (100int, 0nat)) {
                        Some(pct) => Some((c, pct)),
                        None => None,
                    },
                    None => None,
                }
            } else {
                Some((c, (0int, 0nat)))
            },
        },
    }
}

/// The change and change percent of a K-line row.
pub fn row_change(prev_close: Option<Decimal>, close: &Decimal) -> (r: Option<(Decimal, Decimal)>)
    ensures
        match row_change_of(
            match prev_close {
                Some(p) => Some(p@),
                None => None,
            },
            close@,
        ) {
            Some((c, pct)) => r matches Some((x, y)) && x@ == c && y@ == pct,
            None => r is None,
        },
{
    let p = match prev_close {
        None => {
            return Some((Decimal::zero(), Decimal::zero()));
        },
        Some(p) => p,
    };
    let c = match close.checked_sub(&p) {
        Some(c) => c,
        None => {
            return None;
        },
    };
    if p.gt(&Decimal::zero()) {
        match c.checked_div(&p) {
            Some(q) => match q.checked_mul(&Decimal::from_i64(100)) {
                Some(pct) => Some((c, pct)),
                None => None,
            },
            None => None,
        }
    } else {
        Some((c, Decimal::zero()))
    }
}

} // verus!
