//! Stock codes of the A-share markets and the formats they are written in.
//!
//! - `6xxxxx` trades in Shanghai (`sh`);
//! - `0xxxxx` and `3xxxxx` trade in Shenzhen (`sz`);
//! - `8xxxxx` and `4xxxxx` trade in Beijing (`bj`).
//!
//! Accepted inputs: `"600519"`, `"sh600519"`, `"SH600519"` and the Wind form
//! `"600519.SH"`. Internally a code is held in lower case: `"sh600519"`.
use vstd::prelude::*;
use crate::error::AstockError;
use crate::text::{
    all_digits, ascii_upper_text, chars_of, check_all_digits, count_and_find, count_char,
    find_char, is_ascii_text, push_char, push_str, string_from_range, to_uppercase, trim_chars,
    string_from_chars, trimmed, upper_chars, upper_text, lemma_count_concat, lemma_count_absent, lemma_find_after, lemma_trim_solid, ascii_upper, is_digit, is_white_space,
};

verus! {

/// Six ASCII digits.
pub open spec fn is_six_digits(s: Seq<char>) -> bool {
    s.len() == 6 && all_digits(s)
}

/// The market prefix that an upper-case prefix in the input stands for.
pub open spec fn prefix_of_upper(p: Seq<char>) -> Option<Seq<char>> {
    if p == seq!['S', 'H'] {
        Some(seq!['s', 'h'])
    } else if p == seq!['S', 'Z'] {
        Some(seq!['s', 'z'])
    } else if p == seq!['B', 'J'] {
        Some(seq!['b', 'j'])
    } else {
        None
    }
}

/// The market of a six-digit code, from its first digit.
pub open spec fn market_of_digits(code: Seq<char>) -> Option<Seq<char>> {
    if code[0] == '6' {
        Some(seq!['s', 'h'])
    } else if code[0] == '0' || code[0] == '3' {
        Some(seq!['s', 'z'])
    } else if code[0] == '8' || code[0] == '4' {
        Some(seq!['b', 'j'])
    } else {
        None
    }
}

/// A valid market prefix.
pub open spec fn is_market(p: Seq<char>) -> bool {
    p == seq!['s', 'h'] || p == seq!['s', 'z'] || p == seq!['b', 'j']
}

/// Reads an upper-case text without '.' as (prefix, code), or gives the text back as the error.
pub open spec fn parse_normalized(n: Seq<char>) -> Result<(Seq<char>, Seq<char>), Seq<char>> {
    if n.len() >= 2 && prefix_of_upper(n.take(2)) is Some {
        let code = n.skip(2);
        if is_six_digits(code) {
            Ok((prefix_of_upper(n.take(2))->0, code))
        } else {
            Err(n)
        }
    } else if is_six_digits(n) {
        match market_of_digits(n) {
            Some(p) => Ok((p, n)),
            None => Err(n),
        }
    } else {
        Err(n)
    }
}

/// The Wind form `CODE.MARKET` written as `MARKETCODE`.
pub open spec fn wind_swapped(o: Seq<char>) -> Seq<char> {
    let p = find_char(o, '.') as int;
    o.skip(p + 1) + o.take(p)
}

/// What `StockCode::from_raw` makes of an input: the (prefix, code) pair, or the
/// text that the error carries.
pub open spec fn parse_stock_code(input: Seq<char>) -> Result<(Seq<char>, Seq<char>), Seq<char>> {
    let o = upper_text(trimmed(input));
    if count_char(o, '.') >= 1 {
        if count_char(o, '.') != 1 {
            Err(o)
        } else {
            parse_normalized(wind_swapped(o))
        }
    } else {
        parse_normalized(o)
    }
}

/// A stock code: market prefix (`sh`, `sz` or `bj`) and six digits.
#[derive(Debug)]
pub struct StockCode {
    prefix: String,
    code: String,
}

impl View for StockCode {
    type V = (Seq<char>, Seq<char>);

    closed spec fn view(&self) -> (Seq<char>, Seq<char>) {
        (self.prefix@, self.code@)
    }
}

/// The text of a code as the quote APIs want it: `"sh600519"`.
pub open spec fn api_text(c: (Seq<char>, Seq<char>)) -> Seq<char> {
    c.0 + c.1
}

/// The Wind form: `"600519.SH"`.
pub open spec fn wind_text(c: (Seq<char>, Seq<char>)) -> Seq<char> {
    c.1 + seq!['.'] + ascii_upper_text(c.0)
}

/// The Eastmoney `secid`: `"1.600519"` for Shanghai, `"0.600519"` otherwise.
pub open spec fn eastmoney_text(c: (Seq<char>, Seq<char>)) -> Seq<char> {
    (if c.0 == seq!['s', 'h'] {
        seq!['1']
    } else {
        seq!['0']
    }) + seq!['.'] + c.1
}

/// The (prefix, code) pairs that are valid stock codes.
pub open spec fn valid_code(c: (Seq<char>, Seq<char>)) -> bool {
    is_market(c.0) && is_six_digits(c.1)
}

impl StockCode {
    #[verifier::type_invariant]
    spec fn inv(self) -> bool {
        valid_code((self.prefix@, self.code@))
    }

    /// Every stock code is valid.
    pub fn check_valid(&self)
        ensures
            valid_code(self@),
    {
        proof {
            use_type_invariant(self);
        }
    }

    /// Reads a stock code from any of the accepted formats.
    ///
    /// `"600519"` (market from the first digit), `"sh600519"`, `"SH600519"` and
    /// `"600519.SH"` all give `sh600519`. Surrounding white space is ignored and
    /// letters may be of either case.
    pub fn from_raw(input: &str) -> (r: Result<StockCode, AstockError>)
        ensures
            match parse_stock_code(input@) {
                Ok(c) => r matches Ok(s) && s@ == c,
                Err(e) => r matches Err(AstockError::InvalidCode(m)) && m@ == e,
            },
    {
        let trimmed_chars = trim_chars(&chars_of(input));
        let o = upper_chars(&trimmed_chars);
        let (dots, first_dot) = count_and_find(&o, '.');
        let n: Vec<char>;
        if dots >= 1 {
            if dots != 1 {
                return Err(AstockError::InvalidCode(string_from_chars(&o)));
            }
            let mut swapped: Vec<char> = Vec::new();
            let mut i: usize = first_dot + 1;
            while i < o.len()
                invariant
                    first_dot < o.len(),
                    first_dot + 1 <= i <= o.len(),
                    swapped@ == o@.subrange(first_dot + 1, i as int),
                decreases o.len() - i,
            {
                swapped.push(o[i]);
                assert(o@.subrange(first_dot + 1, i + 1) == o@.subrange(first_dot + 1, i as int).push(
                    o@[i as int],
                ));
                i += 1;
            }
            let mut j: usize = 0;
            while j < first_dot
                invariant
                    first_dot < o.len(),
                    j <= first_dot,
                    swapped@ == o@.skip(first_dot + 1) + o@.take(j as int),
                decreases first_dot - j,
            {
                swapped.push(o[j]);
                assert(o@.take(j + 1) == o@.take(j as int).push(o@[j as int]));
                j += 1;
            }
            n = swapped;
        } else {
            n = o;
        }
        proof {
            if dots >= 1 {
                assert(n@ == wind_swapped(o@));
            }
        }
        Self::from_normalized(&n)
    }

    fn from_normalized(n: &Vec<char>) -> (r: Result<StockCode, AstockError>)
        ensures
            match parse_normalized(n@) {
                Ok(c) => r matches Ok(s) && s@ == c,
                Err(e) => r matches Err(AstockError::InvalidCode(m)) && m@ == e,
            },
    {
        let len = n.len();
        if len >= 2 {
            let a = n[0];
            let b = n[1];
            let p: Option<&str> = if a == 'S' && b == 'H' {
                Some("sh")
            } else if a == 'S' && b == 'Z' {
                Some("sz")
            } else if a == 'B' && b == 'J' {
                Some("bj")
            } else {
                None
            };
            proof {
                assert(n@.take(2) == seq![a, b]);
            }
            if let Some(pfx) = p {
                let code = string_from_range(n, 2, len);
                let code_chars = chars_of(code.as_str());
                proof {
                    assert(code_chars@ == n@.skip(2));
                }
                if code_chars.len() != 6 || !check_all_digits(&code_chars) {
                    return Err(AstockError::InvalidCode(string_from_chars(n)));
                }
                proof {
                    reveal_strlit("sh");
                    reveal_strlit("sz");
                    reveal_strlit("bj");
                    assert("sh"@ == seq!['s', 'h']);
                    assert("sz"@ == seq!['s', 'z']);
                    assert("bj"@ == seq!['b', 'j']);
                }
                let mut prefix = String::new();
                push_str(&mut prefix, pfx);
                return Ok(StockCode { prefix, code });
            }
        }
        if len != 6 || !check_all_digits(n) {
            return Err(AstockError::InvalidCode(string_from_chars(n)));
        }
        let first = n[0];
        let pfx: &str = if first == '6' {
            "sh"
        } else if first == '0' || first == '3' {
            "sz"
        } else if first == '8' || first == '4' {
            "bj"
        } else {
            return Err(AstockError::InvalidCode(string_from_chars(n)));
        };
        proof {
            reveal_strlit("sh");
            reveal_strlit("sz");
            reveal_strlit("bj");
            assert("sh"@ == seq!['s', 'h']);
            assert("sz"@ == seq!['s', 'z']);
            assert("bj"@ == seq!['b', 'j']);
        }
        let mut prefix = String::new();
        push_str(&mut prefix, pfx);
        Ok(StockCode { prefix, code: string_from_chars(n) })
    }

    /// The form the Tencent and Sina APIs use: `"sh600519"`.
    pub fn for_api(&self) -> (r: String)
        ensures
            r@ == api_text(self@),
    {
        let mut r = String::new();
        push_str(&mut r, self.prefix.as_str());
        push_str(&mut r, self.code.as_str());
        r
    }

    /// The six-digit code: `"600519"`.
    pub fn code(&self) -> (r: &str)
        ensures
            r@ == self@.1,
    {
        self.code.as_str()
    }

    /// The market prefix: `"sh"`, `"sz"` or `"bj"`.
    pub fn prefix(&self) -> (r: &str)
        ensures
            r@ == self@.0,
    {
        self.prefix.as_str()
    }

    /// The Wind form: `"600519.SH"`.
    pub fn display_wind(&self) -> (r: String)
        ensures
            r@ == wind_text(self@),
    {
        proof {
            use_type_invariant(self);
        }
        let mut r = String::new();
        push_str(&mut r, self.code.as_str());
        push_char(&mut r, '.');
        let up = to_uppercase(self.prefix.as_str());
        push_str(&mut r, up.as_str());
        r
    }

    /// The Eastmoney `secid`: `"1.600519"` (1 for Shanghai, 0 for Shenzhen and Beijing).
    pub fn for_eastmoney(&self) -> (r: String)
        ensures
            r@ == eastmoney_text(self@),
    {
        proof {
            use_type_invariant(self);
            reveal_strlit("sh");
        }
        let mut r = String::new();
        let p = chars_of(self.prefix.as_str());
        if p.len() == 2 && p[0] == 's' && p[1] == 'h' {
            push_char(&mut r, '1');
        } else {
            push_char(&mut r, '0');
        }
        push_char(&mut r, '.');
        push_str(&mut r, self.code.as_str());
        r
    }

    /// The code as it is displayed: `"sh600519"`.
    pub fn to_display(&self) -> (r: String)
        ensures
            r@ == api_text(self@),
    {
        self.for_api()
    }

    /// A copy of the code.
    pub fn duplicate(&self) -> (r: StockCode)
        ensures
            r@ == self@,
    {
        proof {
            use_type_invariant(self);
        }
        StockCode { prefix: self.prefix.clone(), code: self.code.clone() }
    }
}


proof fn lemma_digits_upper(d: Seq<char>)
    requires
        is_six_digits(d),
    ensures
        ascii_upper_text(d) == d,
        is_ascii_text(d),
        forall|i: int| 0 <= i < d.len() ==> #[trigger] d[i] != '.',
{
    assert(ascii_upper_text(d) =~= d);
}

proof fn lemma_market_text(p: Seq<char>)
    requires
        is_market(p),
    ensures
        is_ascii_text(p),
        prefix_of_upper(ascii_upper_text(p)) == Some(p),
        ascii_upper_text(ascii_upper_text(p)) == ascii_upper_text(p),
        is_ascii_text(ascii_upper_text(p)),
        ascii_upper_text(p).len() == 2,
        forall|i: int| 0 <= i < p.len() ==> #[trigger] p[i] != '.',
        forall|i: int| 0 <= i < 2 ==> #[trigger] ascii_upper_text(p)[i] != '.',
{
    let u = ascii_upper_text(p);
    if p == seq!['s', 'h'] {
        assert(u =~= seq!['S', 'H']);
    } else if p == seq!['s', 'z'] {
        assert(u =~= seq!['S', 'Z']);
    } else {
        assert(u =~= seq!['B', 'J']);
    }
    assert(ascii_upper_text(u) =~= u);
}

/// The API form of a code reads back as the same code: `from_raw("sh600519")`
/// gives `sh600519`.
pub proof fn law_api_text_round_trip(c: (Seq<char>, Seq<char>))
    requires
        valid_code(c),
    ensures
        parse_stock_code(api_text(c)) == Ok::<(Seq<char>, Seq<char>), Seq<char>>(c),
{
    let s = api_text(c);
    lemma_digits_upper(c.1);
    lemma_market_text(c.0);
    assert(s[0] == c.0[0]);
    assert(s.last() == c.1[5]);
    lemma_trim_solid(s);
    assert(is_ascii_text(s));
    let u = ascii_upper_text(s);
    assert(u =~= ascii_upper_text(c.0) + c.1);
    lemma_count_absent(u, '.');
    assert(u.take(2) =~= ascii_upper_text(c.0));
    assert(u.skip(2) =~= c.1);
}

/// The upper-case API form reads back as the same code: `from_raw("SH600519")`
/// gives `sh600519`.
pub proof fn law_upper_api_text_round_trip(c: (Seq<char>, Seq<char>))
    requires
        valid_code(c),
    ensures
        parse_stock_code(ascii_upper_text(api_text(c))) == Ok::<(Seq<char>, Seq<char>), Seq<char>>(c),
{
    lemma_digits_upper(c.1);
    lemma_market_text(c.0);
    let s = ascii_upper_text(api_text(c));
    assert(s =~= ascii_upper_text(c.0) + c.1);
    assert(s[0] == ascii_upper_text(c.0)[0]);
    assert(s.last() == c.1[5]);
    lemma_trim_solid(s);
    assert(is_ascii_text(s));
    let u = ascii_upper_text(s);
    assert(u =~= s);
    lemma_count_absent(u, '.');
    assert(u.take(2) =~= ascii_upper_text(c.0));
    assert(u.skip(2) =~= c.1);
}

/// The Wind form of a code reads back as the same code: `from_raw("600519.SH")`
/// gives `sh600519`.
pub proof fn law_wind_text_round_trip(c: (Seq<char>, Seq<char>))
    requires
        valid_code(c),
    ensures
        parse_stock_code(wind_text(c)) == Ok::<(Seq<char>, Seq<char>), Seq<char>>(c),
{
    let s = wind_text(c);
    lemma_digits_upper(c.1);
    lemma_market_text(c.0);
    let up = ascii_upper_text(c.0);
    assert(s[0] == c.1[0]);
    assert(s.last() == up[1]);
    lemma_trim_solid(s);
    assert(is_ascii_text(s));
    let u = ascii_upper_text(s);
    assert(u =~= c.1 + seq!['.'] + up);
    assert(u == c.1 + (seq!['.'] + up));
    lemma_count_concat(c.1, seq!['.'] + up, '.');
    lemma_count_concat(seq!['.'], up, '.');
    lemma_count_absent(c.1, '.');
    lemma_count_absent(up, '.');
    assert(count_char(seq!['.'], '.') == 1) by {
        let one = seq!['.'];
        assert(one.drop_last() =~= Seq::<char>::empty());
        assert(count_char(Seq::<char>::empty(), '.') == 0);
        assert(one.last() == '.');
        assert(count_char(one, '.') == count_char(one.drop_last(), '.') + 1);
    }
    lemma_find_after(c.1, seq!['.'] + up, '.');
    let w = wind_swapped(u);
    assert(w =~= up + c.1);
    assert(w.take(2) =~= up);
    assert(w.skip(2) =~= c.1);
}

/// A bare six-digit code takes its market from its first digit: `6` is
/// Shanghai, `0` and `3` Shenzhen, `8` and `4` Beijing; any other first digit
/// is refused.
pub proof fn law_market_from_first_digit(d: Seq<char>)
    requires
        is_six_digits(d),
    ensures
        parse_stock_code(d) == match market_of_digits(d) {
            Some(p) => Ok::<(Seq<char>, Seq<char>), Seq<char>>((p, d)),
            None => Err(d),
        },
{
    lemma_digits_upper(d);
    assert(!is_white_space(d[0]) && !is_white_space(d.last()));
    lemma_trim_solid(d);
    lemma_count_absent(d, '.');
    assert(prefix_of_upper(d.take(2)) is None) by {
        assert(is_digit(d.take(2)[0]));
    }
}

} // verus!
