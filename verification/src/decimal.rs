//! Fixed-point decimal numbers of the kind used for prices and amounts.
//!
//! A value is a signed mantissa of at most 96 bits and a scale between 0 and
//! 28: it stands for `mantissa / 10^scale`. The arithmetic itself is done by
//! `rust_decimal`; this module holds the numbers as plain values, states what
//! each operation returns, and proves everything it computes by itself.
use vstd::prelude::*;
use crate::text::{decimal_digits, digit_char};

verus! {

/// Largest mantissa magnitude: 2^96 - 1.
pub const MAX_MANTISSA: i128 = 0xFFFF_FFFF_FFFF_FFFF_FFFF_FFFF;

/// Largest scale (number of digits after the point).
pub const MAX_SCALE: u32 = 28;

/// `10^n`.
pub open spec fn pow10(n: nat) -> int
    decreases n,
{
    if n == 0 {
        1
    } else {
        10 * pow10((n - 1) as nat)
    }
}

/// `10^a > 0`.
pub proof fn lemma_pow10_positive(a: nat)
    ensures
        pow10(a) > 0,
    decreases a,
{
    if a > 0 {
        lemma_pow10_positive((a - 1) as nat);
    }
}

/// A decimal model is a pair (mantissa, scale) standing for `mantissa / 10^scale`.
pub open spec fn fits(x: (int, nat)) -> bool {
    -MAX_MANTISSA <= x.0 <= MAX_MANTISSA && x.1 <= MAX_SCALE
}

/// Two models stand for the same rational number.
pub open spec fn same_value(a: (int, nat), b: (int, nat)) -> bool {
    a.0 * pow10(b.1) == b.0 * pow10(a.1)
}

/// `a < b` as rational numbers.
pub open spec fn value_lt(a: (int, nat), b: (int, nat)) -> bool {
    a.0 * pow10(b.1) < b.0 * pow10(a.1)
}

/// `a <= b` as rational numbers.
pub open spec fn value_le(a: (int, nat), b: (int, nat)) -> bool {
    a.0 * pow10(b.1) <= b.0 * pow10(a.1)
}

/// The larger of two scales.
pub open spec fn max_scale(a: nat, b: nat) -> nat {
    if a >= b {
        a
    } else {
        b
    }
}

/// The exact sum, written at the larger of the two scales.
pub open spec fn exact_add(a: (int, nat), b: (int, nat)) -> (int, nat) {
    let s = max_scale(a.1, b.1);
    (a.0 * pow10((s - a.1) as nat) + b.0 * pow10((s - b.1) as nat), s)
}

/// The exact difference, written at the larger of the two scales.
pub open spec fn exact_sub(a: (int, nat), b: (int, nat)) -> (int, nat) {
    let s = max_scale(a.1, b.1);
    (a.0 * pow10((s - a.1) as nat) - b.0 * pow10((s - b.1) as nat), s)
}

/// The exact product.
pub open spec fn exact_mul(a: (int, nat), b: (int, nat)) -> (int, nat) {
    (a.0 * b.0, a.1 + b.1)
}

/// The value truncated toward zero to an integer.
pub open spec fn trunc(a: (int, nat)) -> int {
    if a.0 >= 0 {
        a.0 / pow10(a.1)
    } else {
        -((-a.0) / pow10(a.1))
    }
}


/// What `rust_decimal` gives for a sum whose exact value fits: the other operand
/// when one is zero, else the exact sum at the larger scale.
pub open spec fn add_result_rep(a: (int, nat), b: (int, nat)) -> (int, nat) {
    if a.0 == 0 {
        b
    } else if b.0 == 0 {
        a
    } else {
        exact_add(a, b)
    }
}

/// What `rust_decimal` gives for a difference whose exact value fits: `-b` when
/// `a` is zero, `a` when `b` is zero, else the exact difference at the larger scale.
pub open spec fn sub_result_rep(a: (int, nat), b: (int, nat)) -> (int, nat) {
    if a.0 == 0 {
        (-b.0, b.1)
    } else if b.0 == 0 {
        a
    } else {
        exact_sub(a, b)
    }
}

/// What `rust_decimal` gives for a product whose exact value fits: zero (scale 0)
/// when an operand is zero, else the exact product.
pub open spec fn mul_result_rep(a: (int, nat), b: (int, nat)) -> (int, nat) {
    if a.0 == 0 || b.0 == 0 {
        (0, 0)
    } else {
        exact_mul(a, b)
    }
}

/// What `rust_decimal`'s `checked_add` returns, read back as (mantissa, scale).
pub uninterp spec fn decimal_add_result(a: (int, nat), b: (int, nat)) -> Option<(int, nat)>;

/// What `rust_decimal`'s `checked_sub` returns, read back as (mantissa, scale).
pub uninterp spec fn decimal_sub_result(a: (int, nat), b: (int, nat)) -> Option<(int, nat)>;

/// What `rust_decimal`'s `checked_mul` returns, read back as (mantissa, scale).
pub uninterp spec fn decimal_mul_result(a: (int, nat), b: (int, nat)) -> Option<(int, nat)>;

/// What `rust_decimal`'s `checked_div` returns, read back as (mantissa, scale).
pub uninterp spec fn decimal_div_result(a: (int, nat), b: (int, nat)) -> Option<(int, nat)>;

/// What `rust_decimal` parses from a string with `Decimal::from_str`.
pub uninterp spec fn decimal_parse_result(s: Seq<char>) -> Option<(int, nat)>;

/// What `format!("{:.2}", d)` writes for a `rust_decimal` value: a `-` where
/// the mantissa is negative, the digits of the whole part (`0` where there is
/// none), a point, and the first two digits after the point, truncated, not
/// rounded (zeros where the scale is shorter). Kept opaque: reveal it to
/// compute a text.
#[verifier::opaque]
pub open spec fn decimal_format_2dp(a: (int, nat)) -> Seq<char> {
    let m: int = if a.0 < 0 {
        -a.0
    } else {
        a.0
    };
    let cents: int = (m * 100 / pow10(a.1)) % 100;
    (if a.0 < 0 {
        seq!['-']
    } else {
        Seq::<char>::empty()
    }) + decimal_digits((m / pow10(a.1)) as nat) + seq!['.', digit_char(cents / 10), digit_char(cents % 10)]
}

/// The model of an optional decimal.
pub open spec fn opt_view(o: Option<Decimal>) -> Option<(int, nat)> {
    match o {
        Some(d) => Some(d@),
        None => None,
    }
}

/// A decimal number: `mantissa / 10^scale`.
#[derive(Clone, Copy, Debug)]
pub struct Decimal {
    mantissa: i128,
    scale: u32,
}

impl View for Decimal {
    type V = (int, nat);

    closed spec fn view(&self) -> (int, nat) {
        (self.mantissa as int, self.scale as nat)
    }
}

impl PartialEq for Decimal {
    /// Equality of values, as `rust_decimal` compares: `1.0 == 1.00`.
    fn eq(&self, other: &Decimal) -> (r: bool) {
        !rd_lt(*self, *other) && !rd_lt(*other, *self)
    }
}

impl vstd::std_specs::cmp::PartialEqSpecImpl for Decimal {
    open spec fn obeys_eq_spec() -> bool {
        true
    }

    open spec fn eq_spec(&self, other: &Decimal) -> bool {
        same_value(self@, other@)
    }
}

impl Decimal {
    #[verifier::type_invariant]
    spec fn inv(self) -> bool {
        -MAX_MANTISSA <= self.mantissa <= MAX_MANTISSA && self.scale <= MAX_SCALE
    }

    /// Every decimal lies within the representable range.
    pub fn check_range(&self)
        ensures
            fits(self@),
    {
        proof {
            use_type_invariant(self);
        }
    }

    /// `num / 10^scale`.
    pub fn new(num: i64, scale: u32) -> (r: Decimal)
        requires
            scale <= MAX_SCALE,
        ensures
            r@ == (num as int, scale as nat),
    {
        Decimal { mantissa: num as i128, scale }
    }

    /// A decimal from its parts, or `None` when they lie outside the range.
    pub fn try_from_parts(mantissa: i128, scale: u32) -> (r: Option<Decimal>)
        ensures
            r is Some <==> fits((mantissa as int, scale as nat)),
            r matches Some(d) ==> d@ == (mantissa as int, scale as nat),
    {
        if -MAX_MANTISSA <= mantissa && mantissa <= MAX_MANTISSA && scale <= MAX_SCALE {
            Some(Decimal { mantissa, scale })
        } else {
            None
        }
    }

    /// The mantissa.
    pub fn mantissa(&self) -> (r: i128)
        ensures
            r as int == self@.0,
    {
        self.mantissa
    }

    /// The scale.
    pub fn scale(&self) -> (r: u32)
        ensures
            r as nat == self@.1,
    {
        self.scale
    }

    /// Zero.
    pub fn zero() -> (r: Decimal)
        ensures
            r@ == (0int, 0nat),
    {
        Decimal { mantissa: 0, scale: 0 }
    }

    /// One.
    pub fn one() -> (r: Decimal)
        ensures
            r@ == (1int, 0nat),
    {
        Decimal { mantissa: 1, scale: 0 }
    }

    /// An integer as a decimal (`Decimal::from(i64)`).
    pub fn from_i64(n: i64) -> (r: Decimal)
        ensures
            r@ == (n as int, 0nat),
    {
        Decimal { mantissa: n as i128, scale: 0 }
    }

    /// A count as a decimal (`Decimal::from(usize)`).
    pub fn from_usize(n: usize) -> (r: Decimal)
        ensures
            r@ == (n as int, 0nat),
    {
        assert(n <= MAX_MANTISSA) by {
            assert(usize::MAX <= u64::MAX);
        }
        Decimal { mantissa: n as i128, scale: 0 }
    }

    /// `value > 0`.
    pub fn is_positive(&self) -> (r: bool)
        ensures
            r == (self@.0 > 0),
    {
        self.mantissa > 0
    }

    /// `value < 0`.
    pub fn is_negative(&self) -> (r: bool)
        ensures
            r == (self@.0 < 0),
    {
        self.mantissa < 0
    }

    /// The absolute value.
    pub fn abs(&self) -> (r: Decimal)
        ensures
            r@ == (if self@.0 < 0 { -self@.0 } else { self@.0 }, self@.1),
    {
        proof {
            use_type_invariant(self);
        }
        if self.mantissa < 0 {
            Decimal { mantissa: -self.mantissa, scale: self.scale }
        } else {
            *self
        }
    }

    /// `self + other`, or `None` where `rust_decimal` reports an overflow.
    pub fn checked_add(&self, other: &Decimal) -> (r: Option<Decimal>)
        ensures
            opt_view(r) == decimal_add_result(self@, other@),
            fits(exact_add(self@, other@)) ==> opt_view(r) == Some(add_result_rep(self@, other@)),
    {
        rd_checked_add(*self, *other)
    }

    /// `self - other`, or `None` where `rust_decimal` reports an overflow.
    pub fn checked_sub(&self, other: &Decimal) -> (r: Option<Decimal>)
        ensures
            opt_view(r) == decimal_sub_result(self@, other@),
            fits(exact_sub(self@, other@)) ==> opt_view(r) == Some(sub_result_rep(self@, other@)),
    {
        rd_checked_sub(*self, *other)
    }

    /// `self * other`, or `None` where `rust_decimal` reports an overflow.
    pub fn checked_mul(&self, other: &Decimal) -> (r: Option<Decimal>)
        ensures
            opt_view(r) == decimal_mul_result(self@, other@),
            fits(exact_mul(self@, other@)) ==> opt_view(r) == Some(mul_result_rep(self@, other@)),
    {
        rd_checked_mul(*self, *other)
    }

    /// `self / other`, or `None` on a zero divisor or an overflow.
    pub fn checked_div(&self, other: &Decimal) -> (r: Option<Decimal>)
        ensures
            opt_view(r) == decimal_div_result(self@, other@),
            other@.0 == 0 ==> r is None,
            other@.0 != 0 && self@.0 == 0 ==> opt_view(r) == Some((0int, 0nat)),
            other@.0 != 0 && self@.0 != 0 && self@.0 % other@.0 == 0 && self@.1 >= other@.1 ==> opt_view(r)
                == Some((self@.0 / other@.0, (self@.1 - other@.1) as nat)),
    {
        rd_checked_div(*self, *other)
    }

    /// `self < other`.
    pub fn lt(&self, other: &Decimal) -> (r: bool)
        ensures
            r == value_lt(self@, other@),
    {
        rd_lt(*self, *other)
    }

    /// `self > other`.
    pub fn gt(&self, other: &Decimal) -> (r: bool)
        ensures
            r == value_lt(other@, self@),
    {
        rd_lt(*other, *self)
    }

    /// `self <= other`.
    pub fn le(&self, other: &Decimal) -> (r: bool)
        ensures
            r == value_le(self@, other@),
    {
        !rd_lt(*other, *self)
    }

    /// `self >= other`.
    pub fn ge(&self, other: &Decimal) -> (r: bool)
        ensures
            r == value_le(other@, self@),
    {
        !rd_lt(*self, *other)
    }

    /// The value truncated toward zero, when it fits in an `i64` (`ToPrimitive::to_i64`).
    pub fn to_i64(&self) -> (r: Option<i64>)
        ensures
            r == (if i64::MIN <= trunc(self@) <= i64::MAX {
                Some(trunc(self@) as i64)
            } else {
                None
            }),
    {
        rd_to_i64(*self)
    }
}

/// Parses a decimal number from text (`Decimal::from_str`).
pub fn parse_decimal(s: &str) -> (r: Option<Decimal>)
    ensures
        opt_view(r) == decimal_parse_result(s@),
{
    rd_from_str(s)
}

/// Parses a decimal number from text; text that does not parse gives zero.
pub fn parse_decimal_or_zero(s: &str) -> (r: Decimal)
    ensures
        r@ == parse_or_zero(s@),
{
    match rd_from_str(s) {
        Some(d) => d,
        None => Decimal::zero(),
    }
}

/// The value that text parses to, zero where it does not parse.
pub open spec fn parse_or_zero(s: Seq<char>) -> (int, nat) {
    match decimal_parse_result(s) {
        Some(v) => v,
        None => (0int, 0nat),
    }
}

/// Writes a decimal with two digits after the point, truncated
/// (`format!("{:.2}", d)`).
pub fn format_2dp(d: &Decimal) -> (r: String)
    ensures
        r@ == decimal_format_2dp(d@),
{
    rd_format_2dp(*d)
}

/// `rust_decimal::Decimal::checked_add`: when the exact sum can be written in 96
/// bits at the larger scale, that sum at that scale (the other operand where one
/// is zero); otherwise a rounded sum, or `None` on overflow.
#[verifier::external_body]
fn rd_checked_add(a: Decimal, b: Decimal) -> (r: Option<Decimal>)
    ensures
        opt_view(r) == decimal_add_result(a@, b@),
        fits(exact_add(a@, b@)) ==> opt_view(r) == Some(add_result_rep(a@, b@)),
{
    match rust_decimal::Decimal::from_i128_with_scale(a.mantissa, a.scale).checked_add(rust_decimal::Decimal::from_i128_with_scale(b.mantissa, b.scale)) {
        Some(d) => Some(Decimal { mantissa: d.mantissa(), scale: d.scale() }),
        None => None,
    }
}

/// `rust_decimal::Decimal::checked_sub`: when the exact difference can be written
/// in 96 bits at the larger scale, that difference at that scale (`-b` or `a`
/// where an operand is zero); otherwise rounded, or `None` on overflow.
#[verifier::external_body]
fn rd_checked_sub(a: Decimal, b: Decimal) -> (r: Option<Decimal>)
    ensures
        opt_view(r) == decimal_sub_result(a@, b@),
        fits(exact_sub(a@, b@)) ==> opt_view(r) == Some(sub_result_rep(a@, b@)),
{
    match rust_decimal::Decimal::from_i128_with_scale(a.mantissa, a.scale).checked_sub(rust_decimal::Decimal::from_i128_with_scale(b.mantissa, b.scale)) {
        Some(d) => Some(Decimal { mantissa: d.mantissa(), scale: d.scale() }),
        None => None,
    }
}

/// `rust_decimal::Decimal::checked_mul`: when the exact product fits in 96 bits
/// with a scale of at most 28, that product (zero at scale 0 where an operand is
/// zero); otherwise rounded, or `None` on overflow.
#[verifier::external_body]
fn rd_checked_mul(a: Decimal, b: Decimal) -> (r: Option<Decimal>)
    ensures
        opt_view(r) == decimal_mul_result(a@, b@),
        fits(exact_mul(a@, b@)) ==> opt_view(r) == Some(mul_result_rep(a@, b@)),
{
    match rust_decimal::Decimal::from_i128_with_scale(a.mantissa, a.scale).checked_mul(rust_decimal::Decimal::from_i128_with_scale(b.mantissa, b.scale)) {
        Some(d) => Some(Decimal { mantissa: d.mantissa(), scale: d.scale() }),
        None => None,
    }
}

/// `rust_decimal::Decimal::checked_div`: the quotient rounded to what 96 bits hold;
/// `None` on a zero divisor or overflow. Stated exactly: zero (at scale 0) for
/// a zero dividend, and the exact quotient at the scale difference where the
/// divisor's mantissa divides the dividend's and the dividend's scale is not
/// smaller (the division's path without remainder). Other quotients are
/// named only.
#[verifier::external_body]
fn rd_checked_div(a: Decimal, b: Decimal) -> (r: Option<Decimal>)
    ensures
        opt_view(r) == decimal_div_result(a@, b@),
        b@.0 == 0 ==> r is None,
        b@.0 != 0 && a@.0 == 0 ==> opt_view(r) == Some((0int, 0nat)),
        b@.0 != 0 && a@.0 != 0 && a@.0 % b@.0 == 0 && a@.1 >= b@.1 ==> opt_view(r) == Some(
            (a@.0 / b@.0, (a@.1 - b@.1) as nat),
        ),
{
    match rust_decimal::Decimal::from_i128_with_scale(a.mantissa, a.scale).checked_div(rust_decimal::Decimal::from_i128_with_scale(b.mantissa, b.scale)) {
        Some(d) => Some(Decimal { mantissa: d.mantissa(), scale: d.scale() }),
        None => None,
    }
}

/// `<` on `rust_decimal::Decimal`: the order of the two rational values.
#[verifier::external_body]
fn rd_lt(a: Decimal, b: Decimal) -> (r: bool)
    ensures
        r == value_lt(a@, b@),
{
    rust_decimal::Decimal::from_i128_with_scale(a.mantissa, a.scale) < rust_decimal::Decimal::from_i128_with_scale(b.mantissa, b.scale)
}

/// `ToPrimitive::to_i64` on `rust_decimal::Decimal`: truncates toward zero and
/// gives `None` when the integer does not fit in an `i64`.
#[verifier::external_body]
fn rd_to_i64(a: Decimal) -> (r: Option<i64>)
    ensures
        r == (if i64::MIN <= trunc(a@) <= i64::MAX {
            Some(trunc(a@) as i64)
        } else {
            None
        }),
{
    rust_decimal::prelude::ToPrimitive::to_i64(&rust_decimal::Decimal::from_i128_with_scale(a.mantissa, a.scale))
}

/// `rust_decimal::Decimal::from_str`; its result is named, not restated.
#[verifier::external_body]
fn rd_from_str(s: &str) -> (r: Option<Decimal>)
    ensures
        opt_view(r) == decimal_parse_result(s@),
{
    match <rust_decimal::Decimal as std::str::FromStr>::from_str(s) {
        Ok(d) => Some(Decimal { mantissa: d.mantissa(), scale: d.scale() }),
        Err(_) => None,
    }
}

/// `format!("{:.2}", d)` on a `rust_decimal::Decimal`: the sign, the whole
/// part and two truncated digits after the point (`rust_decimal`'s
/// `to_str_internal` with a precision of 2).
#[verifier::external_body]
fn rd_format_2dp(a: Decimal) -> (r: String)
    ensures
        r@ == decimal_format_2dp(a@),
{
    format!("{:.2}", rust_decimal::Decimal::from_i128_with_scale(a.mantissa, a.scale))
}

} // verus!
