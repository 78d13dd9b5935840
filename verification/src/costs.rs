//! The A-share trading cost model.
//!
//! - commission: 0.03% of the amount, at least 5 yuan;
//! - stamp tax: 0.05%, on sales only (halved in August 2023);
//! - transfer fee: 0.001%, on purchases and sales.
use vstd::prelude::*;
use crate::decimal::{
    lemma_pow10_positive,
    Decimal, MAX_MANTISSA, MAX_SCALE, decimal_add_result, decimal_mul_result, exact_add, exact_mul, fits,
    mul_result_rep, opt_view, pow10, same_value, value_lt,
};

verus! {

/// The commission rate, 0.0003.
pub open spec fn commission_rate() -> (int, nat) {
    (3, 4)
}

/// The minimum commission, 5.
pub open spec fn min_commission() -> (int, nat) {
    (5, 0)
}

/// The stamp tax rate, 0.0005.
pub open spec fn stamp_tax_rate() -> (int, nat) {
    (5, 4)
}

/// The transfer fee rate, 0.00001.
pub open spec fn transfer_fee_rate() -> (int, nat) {
    (1, 5)
}

/// The commission on an amount: 0.03% of it, at least 5.
pub open spec fn commission_of(amount: (int, nat)) -> Option<(int, nat)> {
    match decimal_mul_result(amount, commission_rate()) {
        Some(c) => Some(
            if value_lt(c, min_commission()) {
                min_commission()
            } else {
                c
            },
        ),
        None => None,
    }
}

/// The amount of a trade: price times shares.
pub open spec fn amount_of(price: (int, nat), shares: int) -> Option<(int, nat)> {
    decimal_mul_result(price, (shares, 0))
}

/// The cost of a purchase: commission plus transfer fee.
pub open spec fn buy_cost_of(price: (int, nat), shares: int) -> Option<(int, nat)> {
    match amount_of(price, shares) {
        Some(amount) => match (commission_of(amount), decimal_mul_result(amount, transfer_fee_rate())) {
            (Some(c), Some(t)) => decimal_add_result(c, t),
            _ => None,
        },
        None => None,
    }
}

/// The cost of a sale: commission plus stamp tax plus transfer fee.
pub open spec fn sell_cost_of(price: (int, nat), shares: int) -> Option<(int, nat)> {
    match amount_of(price, shares) {
        Some(amount) => match (
            commission_of(amount),
            decimal_mul_result(amount, stamp_tax_rate()),
            decimal_mul_result(amount, transfer_fee_rate()),
        ) {
            (Some(c), Some(st), Some(t)) => match decimal_add_result(c, st) {
                Some(cs) => decimal_add_result(cs, t),
                None => None,
            },
            _ => None,
        },
        None => None,
    }
}

fn rate_commission() -> (r: Decimal)
    ensures
        r@ == commission_rate(),
{
    Decimal::new(3, 4)
}

fn rate_stamp_tax() -> (r: Decimal)
    ensures
        r@ == stamp_tax_rate(),
{
    Decimal::new(5, 4)
}

fn rate_transfer_fee() -> (r: Decimal)
    ensures
        r@ == transfer_fee_rate(),
{
    Decimal::new(1, 5)
}

/// Amounts for which every step of the cost model is exact in the decimal range:
/// a positive amount `price * shares` and room for five more digits of scale.
pub open spec fn exact_cost_range(price: (int, nat), shares: int) -> bool {
    &&& price.0 * shares > 0
    &&& price.1 + 5 <= MAX_SCALE
    &&& 5 * pow10(price.1 + 5) + 81 * (price.0 * shares) <= MAX_MANTISSA
}

/// Whether the commission is the minimum of 5: 0.03% of the amount is below 5.
pub open spec fn below_min_commission(price: (int, nat), shares: int) -> bool {
    3 * (price.0 * shares) < 5 * pow10(price.1 + 4)
}

/// The cost of a purchase in closed form, at the price's scale plus 5:
/// `max(0.0003 * A, 5) + 0.00001 * A` with `A = price * shares`.
pub open spec fn buy_cost_value(price: (int, nat), shares: int) -> (int, nat) {
    let a = price.0 * shares;
    (
        (if below_min_commission(price, shares) {
            5 * pow10(price.1 + 5)
        } else {
            30 * a
        }) + a,
        (price.1 + 5) as nat,
    )
}

/// The cost of a sale in closed form, at the price's scale plus 5:
/// `max(0.0003 * A, 5) + 0.0005 * A + 0.00001 * A`.
pub open spec fn sell_cost_value(price: (int, nat), shares: int) -> (int, nat) {
    let a = price.0 * shares;
    (
        (if below_min_commission(price, shares) {
            5 * pow10(price.1 + 5)
        } else {
            30 * a
        }) + 50 * a + a,
        (price.1 + 5) as nat,
    )
}

pub(crate) proof fn lemma_range_facts(price: (int, nat), shares: int)
    requires
        exact_cost_range(price, shares),
    ensures
        price.0 != 0,
        shares != 0,
        pow10(price.1 + 5) == 10 * pow10(price.1 + 4),
        pow10(price.1 + 4) > 0,
        pow10(0) == 1,
        pow10(1) == 10,
        fits(exact_mul(price, (shares, 0))),
        fits(exact_mul((price.0 * shares, price.1), commission_rate())),
        fits(exact_mul((price.0 * shares, price.1), stamp_tax_rate())),
        fits(exact_mul((price.0 * shares, price.1), transfer_fee_rate())),
{
    let a = price.0 * shares;
    assert(price.0 != 0 && shares != 0) by (nonlinear_arith)
        requires
            price.0 * shares > 0,
    ;
    lemma_pow10_positive(price.1 + 4);
    assert(pow10((price.1 + 5) as nat) == 10 * pow10((price.1 + 4) as nat));
    reveal_with_fuel(pow10, 2);
}

/// The trades whose purchase cost `rust_decimal` computes without rounding:
/// every exact intermediate value of the cost model fits, namely the
/// commission before its minimum (`3A` at the price's scale plus 4), the
/// transfer fee (`A` at the scale plus 5) and their sum, whatever the sign of
/// `A = price * shares`.
pub open spec fn buy_exact(price: (int, nat), shares: int) -> bool {
    let a = price.0 * shares;
    &&& fits((3 * a, (price.1 + 4) as nat))
    &&& fits((a, (price.1 + 5) as nat))
    &&& fits(buy_cost_value(price, shares))
}

/// The commission plus the stamp tax of a sale, at the price's scale plus 4.
pub open spec fn commission_and_stamp_value(price: (int, nat), shares: int) -> (int, nat) {
    let a = price.0 * shares;
    (
        (if below_min_commission(price, shares) {
            5 * pow10(price.1 + 4)
        } else {
            3 * a
        }) + 5 * a,
        (price.1 + 4) as nat,
    )
}

/// The trades whose sale cost `rust_decimal` computes without rounding: every
/// exact intermediate value fits, namely the commission before its minimum,
/// the stamp tax (`5A` at the price's scale plus 4), the transfer fee, the
/// commission plus the stamp tax, and the total.
pub open spec fn sell_exact(price: (int, nat), shares: int) -> bool {
    let a = price.0 * shares;
    &&& fits((3 * a, (price.1 + 4) as nat))
    &&& fits((5 * a, (price.1 + 4) as nat))
    &&& fits((a, (price.1 + 5) as nat))
    &&& fits(commission_and_stamp_value(price, shares))
    &&& fits(sell_cost_value(price, shares))
}

/// Every trade in the positive exact range is computed without rounding.
proof fn lemma_range_exact(price: (int, nat), shares: int)
    requires
        exact_cost_range(price, shares),
    ensures
        price.0 * shares != 0,
        buy_exact(price, shares),
        sell_exact(price, shares),
{
    lemma_pow10_positive(price.1 + 4);
    assert(pow10((price.1 + 5) as nat) == 10 * pow10((price.1 + 4) as nat));
}

proof fn lemma_exact_facts(price: (int, nat), shares: int)
    requires
        price.0 * shares != 0,
        fits((3 * (price.0 * shares), (price.1 + 4) as nat)),
        fits((price.0 * shares, (price.1 + 5) as nat)),
    ensures
        price.0 != 0,
        shares != 0,
        pow10(price.1 + 5) == 10 * pow10(price.1 + 4),
        pow10(price.1 + 4) > 0,
        pow10(0) == 1,
        pow10(1) == 10,
        fits(exact_mul(price, (shares, 0))),
        fits(exact_mul((price.0 * shares, price.1), commission_rate())),
        fits(exact_mul((price.0 * shares, price.1), transfer_fee_rate())),
{
    assert(price.0 != 0 && shares != 0) by (nonlinear_arith)
        requires
            price.0 * shares != 0,
    ;
    lemma_pow10_positive(price.1 + 4);
    assert(pow10((price.1 + 5) as nat) == 10 * pow10((price.1 + 4) as nat));
    reveal_with_fuel(pow10, 2);
}

/// The commission on an amount (0.03%, at least 5); `None` where the decimal
/// arithmetic overflows.
fn calc_commission(amount: &Decimal) -> (r: Option<Decimal>)
    ensures
        opt_view(r) == commission_of(amount@),
        amount@.0 != 0 && fits(exact_mul(amount@, commission_rate())) ==> opt_view(r) == Some(
            if 3 * amount@.0 < 5 * pow10(amount@.1 + 4) {
                min_commission()
            } else {
                (3 * amount@.0, (amount@.1 + 4) as nat)
            },
        ),
        amount@.0 == 0 && amount@.1 + 4 <= MAX_SCALE ==> opt_view(r) == Some(min_commission()),
{
    let commission = amount.checked_mul(&rate_commission())?;
    let five = Decimal::new(5, 0);
    proof {
        assert(pow10(0) == 1);
    }
    if commission.lt(&five) {
        Some(five)
    } else {
        Some(commission)
    }
}

/// The total cost of buying `shares` at `price`: commission plus transfer fee.
/// `None` where the decimal arithmetic overflows. Wherever every step is exact
/// the cost is `max(0.0003 * A, 5) + 0.00001 * A` with `A = price * shares`,
/// whatever the sign of `A`; a zero amount costs the minimum commission, 5.
pub fn calc_buy_cost(price: Decimal, shares: i64) -> (r: Option<Decimal>)
    ensures
        opt_view(r) == buy_cost_of(price@, shares as int),
        exact_cost_range(price@, shares as int) ==> opt_view(r) == Some(
            buy_cost_value(price@, shares as int),
        ),
        buy_exact(price@, shares as int) && price@.0 * shares != 0 ==> opt_view(r) == Some(
            buy_cost_value(price@, shares as int),
        ),
        price@.0 * shares == 0 ==> opt_view(r) == Some(min_commission()),
        buy_exact(price@, shares as int) ==> (r matches Some(c) && same_value(
            c@,
            buy_cost_value(price@, shares as int),
        )),
{
    price.check_range();
    proof {
        if exact_cost_range(price@, shares as int) {
            lemma_range_exact(price@, shares as int);
        }
        if buy_exact(price@, shares as int) && price@.0 * shares != 0 {
            lemma_exact_facts(price@, shares as int);
        }
        assert(pow10(0) == 1);
        if price@.0 * shares == 0 {
            assert(price@.0 == 0 || shares == 0) by (nonlinear_arith)
                requires
                    price@.0 * shares == 0,
            ;
            assert(fits(exact_mul(price@, (shares as int, 0nat))));
        }
    }
    let amount = price.checked_mul(&Decimal::from_i64(shares))?;
    let commission = calc_commission(&amount);
    let transfer_fee = amount.checked_mul(&rate_transfer_fee());
    match (commission, transfer_fee) {
        (Some(c), Some(t)) => {
            let ghost a = price@.0 * shares;
            let ghost sc = price@.1;
            proof {
                if buy_exact(price@, shares as int) && a != 0 {
                    assert(amount@ == (a, sc));
                    assert(t@ == (a, (sc + 5) as nat));
                    if below_min_commission(price@, shares as int) {
                        assert(c@ == min_commission());
                        assert(exact_add(c@, t@) == (5 * pow10(sc + 5) + a, (sc + 5) as nat));
                    } else {
                        assert(c@ == (3 * a, (sc + 4) as nat));
                        assert(exact_add(c@, t@) == (3 * a * 10 + a, (sc + 5) as nat));
                    }
                }
                if a == 0 {
                    assert(amount@ == (0int, 0nat));
                    assert(c@ == min_commission());
                    assert(t@ == (0int, 0nat));
                    assert(exact_add(c@, t@) == (5int, 0nat));
                }
            }
            let r = c.checked_add(&t);
            proof {
                if a == 0 {
                    lemma_pow10_positive(sc + 5);
                    assert(same_value((5int, 0nat), buy_cost_value(price@, shares as int)));
                }
                if exact_cost_range(price@, shares as int) {
                    lemma_range_exact(price@, shares as int);
                }
            }
            r
        },
        _ => {
            proof {
                if price@.0 * shares == 0 {
                    assert(amount@ == (0int, 0nat));
                    assert(fits(exact_mul(amount@, transfer_fee_rate())));
                }
                if exact_cost_range(price@, shares as int) {
                    lemma_range_exact(price@, shares as int);
                }
            }
            None
        },
    }
}

/// The total cost of selling `shares` at `price`: commission plus stamp tax plus
/// transfer fee. `None` where the decimal arithmetic overflows. Wherever every
/// step is exact the cost is `max(0.0003 * A, 5) + 0.0005 * A + 0.00001 * A`,
/// whatever the sign of `A`; a zero amount costs the minimum commission, 5.
pub fn calc_sell_cost(price: Decimal, shares: i64) -> (r: Option<Decimal>)
    ensures
        opt_view(r) == sell_cost_of(price@, shares as int),
        exact_cost_range(price@, shares as int) ==> opt_view(r) == Some(
            sell_cost_value(price@, shares as int),
        ),
        sell_exact(price@, shares as int) && price@.0 * shares != 0 ==> opt_view(r) == Some(
            sell_cost_value(price@, shares as int),
        ),
        price@.0 * shares == 0 ==> opt_view(r) == Some(min_commission()),
        sell_exact(price@, shares as int) ==> (r matches Some(c) && same_value(
            c@,
            sell_cost_value(price@, shares as int),
        )),
{
    price.check_range();
    proof {
        if exact_cost_range(price@, shares as int) {
            lemma_range_exact(price@, shares as int);
        }
        if sell_exact(price@, shares as int) && price@.0 * shares != 0 {
            lemma_exact_facts(price@, shares as int);
        }
        assert(pow10(0) == 1);
        if price@.0 * shares == 0 {
            assert(price@.0 == 0 || shares == 0) by (nonlinear_arith)
                requires
                    price@.0 * shares == 0,
            ;
            assert(fits(exact_mul(price@, (shares as int, 0nat))));
        }
    }
    let amount = price.checked_mul(&Decimal::from_i64(shares))?;
    let commission = calc_commission(&amount);
    let stamp_tax = amount.checked_mul(&rate_stamp_tax());
    let transfer_fee = amount.checked_mul(&rate_transfer_fee());
    let ghost a = price@.0 * shares;
    let ghost sc = price@.1;
    proof {
        if a == 0 {
            assert(amount@ == (0int, 0nat));
            assert(fits(exact_mul(amount@, transfer_fee_rate())));
            assert(fits(exact_mul(amount@, stamp_tax_rate())));
        }
        if exact_cost_range(price@, shares as int) {
            lemma_range_exact(price@, shares as int);
        }
    }
    match (commission, stamp_tax, transfer_fee) {
        (Some(c), Some(st), Some(t)) => {
            proof {
                if sell_exact(price@, shares as int) && a != 0 {
                    assert(amount@ == (a, sc));
                    assert(fits(exact_mul(amount@, stamp_tax_rate())));
                    assert(mul_result_rep(amount@, stamp_tax_rate()) == (a * 5, (sc + 4) as nat));
                    assert(st@ == (5 * a, (sc + 4) as nat));
                    assert(t@ == (a, (sc + 5) as nat));
                    if below_min_commission(price@, shares as int) {
                        assert(c@ == min_commission());
                        assert(exact_add(c@, st@) == (5 * pow10(sc + 4) + 5 * a, (sc + 4) as nat));
                    } else {
                        assert(c@ == (3 * a, (sc + 4) as nat));
                        assert(exact_add(c@, st@) == (8 * a, (sc + 4) as nat));
                    }
                }
                if a == 0 {
                    assert(c@ == min_commission());
                    assert(st@ == (0int, 0nat));
                    assert(t@ == (0int, 0nat));
                    assert(exact_add(c@, st@) == (5int, 0nat));
                }
            }
            match c.checked_add(&st) {
                Some(cs) => {
                    proof {
                        if sell_exact(price@, shares as int) && a != 0 {
                            assert(exact_add(cs@, t@) == (cs@.0 * 10 + a, (sc + 5) as nat));
                        }
                        if a == 0 {
                            assert(cs@ == (5int, 0nat));
                            assert(exact_add(cs@, t@) == (5int, 0nat));
                        }
                    }
                    let r = cs.checked_add(&t);
                    proof {
                        if a == 0 {
                            lemma_pow10_positive(sc + 5);
                            assert(same_value((5int, 0nat), sell_cost_value(price@, shares as int)));
                        }
                    }
                    r
                },
                None => None,
            }
        },
        _ => None,
    }
}

/// A sale costs exactly the stamp tax, 0.05% of the amount, more than a purchase
/// of the same shares at the same price (both written at the same scale). These
/// are the costs `calc_sell_cost` and `calc_buy_cost` give wherever
/// `rust_decimal` computes them without rounding (`sell_exact`, `buy_exact`),
/// whatever the sign of the amount; a zero amount costs 5 either way.
pub proof fn law_sell_minus_buy_is_stamp_tax(price: (int, nat), shares: int)
    ensures
        sell_cost_value(price, shares).1 == buy_cost_value(price, shares).1,
        sell_cost_value(price, shares).0 - buy_cost_value(price, shares).0 == 50 * (price.0
            * shares),
{
}

/// The commission is never below the minimum: every purchase in the exact range
/// costs more than 5.
pub proof fn law_buy_cost_at_least_minimum(price: (int, nat), shares: int)
    requires
        exact_cost_range(price, shares),
    ensures
        value_lt(min_commission(), buy_cost_value(price, shares)),
{
    lemma_range_facts(price, shares);
    let a = price.0 * shares;
    let s = price.1;
    lemma_pow10_positive(s + 5);
    assert(pow10(0) == 1);
}

/// Shares rounded down, toward zero, to whole lots of 100 (one lot is 100 shares).
pub open spec fn lot_of(shares: int) -> int {
    if shares >= 0 {
        (shares / 100) * 100
    } else {
        -(((-shares) / 100) * 100)
    }
}

/// Rounds a number of shares down to a multiple of 100 (one lot).
pub fn round_lot(shares: i64) -> (r: i64)
    ensures
        r == lot_of(shares as int),
{
    if shares >= 0 {
        (shares / 100) * 100
    } else {
        let m: i64 = if shares == i64::MIN {
            i64::MAX
        } else {
            -shares
        };
        assert(shares == i64::MIN ==> (m as int) / 100 == (-(shares as int)) / 100);
        -((m / 100) * 100)
    }
}

/// A whole number of lots at most the shares given, and less than one lot below
/// them, for every non-negative number of shares.
pub proof fn law_round_lot(shares: int)
    requires
        shares >= 0,
    ensures
        lot_of(shares) % 100 == 0,
        0 <= lot_of(shares) <= shares,
        shares - lot_of(shares) < 100,
{
}


} // verus!
