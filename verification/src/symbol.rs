//! Ticker symbols and the code formats each data source expects.

use vstd::prelude::*;
use crate::market::Market;
use crate::text::{append_chars, from_chars, has_prefix, starts_with, sub_chars, to_chars};

verus! {

/// A tradable symbol: its code, its market and, once known, its name.
#[derive(Debug)]
pub struct Symbol {
    pub code: String,
    pub market: Market,
    pub name: Option<String>,
}

impl Clone for Symbol {
    fn clone(&self) -> (r: Self)
        ensures
            r == *self,
    {
        let name = match &self.name {
            Some(n) => Some(n.clone()),
            None => None,
        };
        Symbol { code: self.code.clone(), market: self.market, name }
    }
}

/// The Shanghai exchange prefix.
pub open spec fn sh() -> Seq<char> {
    "sh"@
}

/// The Shenzhen exchange prefix.
pub open spec fn sz() -> Seq<char> {
    "sz"@
}

/// The Beijing exchange prefix.
pub open spec fn bj() -> Seq<char> {
    "bj"@
}

/// `code` left-padded with zeros to four characters (`{:0>4}`).
pub open spec fn pad4(code: Seq<char>) -> Seq<char> {
    if code.len() < 4 {
        Seq::new((4 - code.len()) as nat, |i: int| '0') + code
    } else {
        code
    }
}

/// Yahoo Finance ticker of a code in a market.
pub open spec fn yahoo_ticker_spec(code: Seq<char>, m: Market) -> Seq<char> {
    match m {
        Market::AShare => {
            if has_prefix(code, sh()) {
                code.skip(2) + ".SS"@
            } else if has_prefix(code, sz()) {
                code.skip(2) + ".SZ"@
            } else if code.len() > 0 && code[0] == '6' {
                code + ".SS"@
            } else {
                code + ".SZ"@
            }
        },
        Market::HKStock => pad4(code) + ".HK"@,
        _ => code,
    }
}

/// Sina Finance ticker: A-share codes get their exchange prefix.
pub open spec fn sina_ticker_spec(code: Seq<char>, m: Market) -> Seq<char> {
    match m {
        Market::AShare => {
            if has_prefix(code, sh()) || has_prefix(code, sz()) {
                code
            } else if code.len() > 0 && code[0] == '6' {
                sh() + code
            } else {
                sz() + code
            }
        },
        _ => code,
    }
}

/// The code without an `sh`/`sz` prefix.
pub open spec fn display_code_spec(code: Seq<char>) -> Seq<char> {
    if has_prefix(code, sh()) || has_prefix(code, sz()) {
        code.skip(2)
    } else {
        code
    }
}

/// What a symbol's `Display` writes: `code (name)` or the code.
pub open spec fn symbol_text(s: Symbol) -> Seq<char> {
    match s.name {
        Some(n) => s.code@ + " ("@ + n@ + ")"@,
        None => s.code@,
    }
}

/// The digit characters.
pub open spec fn is_digit(c: char) -> bool {
    '0' <= c && c <= '9'
}

impl Symbol {
    /// A symbol with no name yet.
    pub fn new(code: &str, market: Market) -> (r: Symbol)
        ensures
            r.code@ == code@,
            r.market == market,
            r.name is None,
    {
        Symbol { code: code.to_owned(), market, name: None }
    }

    /// The same symbol with a name.
    pub fn with_name(self, name: &str) -> (r: Symbol)
        ensures
            r.code == self.code,
            r.market == self.market,
            r.name matches Some(n) && n@ == name@,
    {
        let mut s = self;
        s.name = Some(name.to_owned());
        s
    }

    /// Ticker format for Yahoo Finance: `.SS`/`.SZ` suffixes for A-shares
    /// (by prefix, else by a leading 6), zero-padded `.HK` codes for Hong Kong.
    pub fn yahoo_ticker(&self) -> (r: String)
        ensures
            r@ == yahoo_ticker_spec(self.code@, self.market),
    {
        let code = to_chars(self.code.as_str());
        let mut out: Vec<char> = Vec::new();
        match self.market {
            Market::AShare => {
                if starts_with(&code, &to_chars("sh")) {
                    proof { reveal_strlit("sh"); }
                    out = sub_chars(&code, 2, code.len());
                    append_chars(&mut out, &to_chars(".SS"));
                } else if starts_with(&code, &to_chars("sz")) {
                    proof { reveal_strlit("sz"); }
                    out = sub_chars(&code, 2, code.len());
                    append_chars(&mut out, &to_chars(".SZ"));
                } else if code.len() > 0 && code[0] == '6' {
                    out = code;
                    append_chars(&mut out, &to_chars(".SS"));
                } else {
                    out = code;
                    append_chars(&mut out, &to_chars(".SZ"));
                }
            },
            Market::HKStock => {
                let mut k: usize = code.len();
                while k < 4
                    invariant
                        code@.len() <= k <= 4 || (k == code@.len() && k >= 4),
                        out@ == Seq::new((k - code@.len()) as nat, |i: int| '0'),
                    decreases 4 - k,
                {
                    out.push('0');
                    proof {
                        assert(out@ =~= Seq::new((k + 1 - code@.len()) as nat, |i: int| '0'));
                    }
                    k = k + 1;
                }
                append_chars(&mut out, &code);
                append_chars(&mut out, &to_chars(".HK"));
                proof {
                    if code@.len() >= 4 {
                        assert(Seq::new((k - code@.len()) as nat, |i: int| '0') =~= Seq::<char>::empty());
                        assert(pad4(code@) == code@);
                    }
                    assert(out@ =~= pad4(code@) + ".HK"@);
                }
            },
            _ => {
                out = code;
            },
        }
        from_chars(&out)
    }

    /// Ticker format for Sina Finance: prefixed A-share codes pass through,
    /// bare ones get `sh` (leading 6) or `sz`.
    pub fn sina_ticker(&self) -> (r: String)
        ensures
            r@ == sina_ticker_spec(self.code@, self.market),
    {
        let code = to_chars(self.code.as_str());
        match self.market {
            Market::AShare => {
                if starts_with(&code, &to_chars("sh")) || starts_with(&code, &to_chars("sz")) {
                    return self.code.clone();
                }
                let mut out: Vec<char>;
                if code.len() > 0 && code[0] == '6' {
                    out = to_chars("sh");
                } else {
                    out = to_chars("sz");
                }
                append_chars(&mut out, &code);
                from_chars(&out)
            },
            _ => self.code.clone(),
        }
    }

    /// The code without its `sh`/`sz` exchange prefix.
    pub fn display_code(&self) -> (r: String)
        ensures
            r@ == display_code_spec(self.code@),
    {
        let code = to_chars(self.code.as_str());
        if starts_with(&code, &to_chars("sh")) || starts_with(&code, &to_chars("sz")) {
            proof { reveal_strlit("sh"); reveal_strlit("sz"); }
            from_chars(&sub_chars(&code, 2, code.len()))
        } else {
            self.code.clone()
        }
    }

    /// What the symbol's `Display` writes: `code (name)`, or the code alone.
    pub fn to_display_string(&self) -> (r: String)
        ensures
            r@ == symbol_text(*self),
    {
        match &self.name {
            Some(n) => {
                let mut out = to_chars(self.code.as_str());
                append_chars(&mut out, &to_chars(" ("));
                append_chars(&mut out, &to_chars(n.as_str()));
                append_chars(&mut out, &to_chars(")"));
                from_chars(&out)
            },
            None => self.code.clone(),
        }
    }
}

} // verus!
