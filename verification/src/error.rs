//! Errors of the data layer.

use vstd::prelude::*;
use crate::text::{append_chars, from_chars, to_chars};

verus! {

/// Failures of data retrieval and parsing.
#[derive(Debug, Clone)]
pub enum DataError {
    Network(String),
    Parse(String),
    RateLimited { retry_after: u64 },
    SymbolNotFound { symbol: String },
    MarketNotSupported { market: String },
    Cache(String),
    /// An I/O failure, carried as its message.
    Io(String),
    Config(String),
}

/// The decimal digits of `n`, most significant first.
pub open spec fn digits(n: nat) -> Seq<char>
    decreases n,
{
    if n < 10 {
        seq![(('0' as u32) + n) as char]
    } else {
        digits(n / 10).push((('0' as u32) + (n % 10)) as char)
    }
}

/// `n` written in decimal, as `u64`'s `Display` writes it.
pub fn u64_digits(n: u64) -> (r: Vec<char>)
    ensures
        r@ == digits(n as nat),
    decreases n,
{
    if n < 10 {
        let c = char_of_digit(n);
        let mut v: Vec<char> = Vec::new();
        v.push(c);
        v
    } else {
        let mut v = u64_digits(n / 10);
        let c = char_of_digit(n % 10);
        v.push(c);
        v
    }
}

/// `n` written in decimal with a leading `-` when negative, as `i64`'s
/// `Display` writes it.
pub open spec fn signed_digits(n: int) -> Seq<char> {
    if n < 0 {
        seq!['-'] + digits((-n) as nat)
    } else {
        digits(n as nat)
    }
}

/// `n` written in decimal, as `i64`'s `Display` writes it.
pub fn i64_digits(n: i64) -> (r: Vec<char>)
    ensures
        r@ == signed_digits(n as int),
{
    if n < 0 {
        let m: u64 = (-(n as i128)) as u64;
        let mut v: Vec<char> = vec!['-'];
        let d = u64_digits(m);
        let mut i: usize = 0;
        while i < d.len()
            invariant
                i <= d@.len(),
                v@ == seq!['-'] + d@.take(i as int),
            decreases d@.len() - i,
        {
            proof {
                assert(d@.take(i as int + 1) =~= d@.take(i as int).push(d@[i as int]));
            }
            v.push(d[i]);
            i = i + 1;
        }
        proof {
            assert(d@.take(d@.len() as int) =~= d@);
        }
        v
    } else {
        u64_digits(n as u64)
    }
}

/// The digit character for `d < 10`.
fn char_of_digit(d: u64) -> (c: char)
    requires
        d < 10,
    ensures
        c == (('0' as u32) + d) as char,
{
    if d == 0 { '0' } else if d == 1 { '1' } else if d == 2 { '2' } else if d == 3 { '3' }
    else if d == 4 { '4' } else if d == 5 { '5' } else if d == 6 { '6' } else if d == 7 { '7' }
    else if d == 8 { '8' } else { '9' }
}

/// The text before the payload of each variant.
pub open spec fn error_prefix(e: DataError) -> Seq<char> {
    match e {
        DataError::Network(_) => "Network error: "@,
        DataError::Parse(_) => "Parse error: "@,
        DataError::RateLimited { .. } => "Rate limited, retry after "@,
        DataError::SymbolNotFound { .. } => "Symbol not found: "@,
        DataError::MarketNotSupported { .. } => "Market not supported: "@,
        DataError::Cache(_) => "Cache error: "@,
        DataError::Io(_) => "IO error: "@,
        DataError::Config(_) => "Config error: "@,
    }
}

/// The whole message of an error.
pub open spec fn error_message(e: DataError) -> Seq<char> {
    match e {
        DataError::Network(m) => error_prefix(e) + m@,
        DataError::Parse(m) => error_prefix(e) + m@,
        DataError::RateLimited { retry_after } => error_prefix(e) + digits(retry_after as nat) + "s"@,
        DataError::SymbolNotFound { symbol } => error_prefix(e) + symbol@,
        DataError::MarketNotSupported { market } => error_prefix(e) + market@,
        DataError::Cache(m) => error_prefix(e) + m@,
        DataError::Io(m) => error_prefix(e) + m@,
        DataError::Config(m) => error_prefix(e) + m@,
    }
}

impl DataError {
    /// The message shown for the error (what its `Display` writes).
    pub fn message(&self) -> (r: String)
        ensures
            r@ == error_message(*self),
    {
        let mut v: Vec<char> = Vec::new();
        match self {
            DataError::Network(m) => {
                append_chars(&mut v, &to_chars("Network error: "));
                append_chars(&mut v, &to_chars(m.as_str()));
            },
            DataError::Parse(m) => {
                append_chars(&mut v, &to_chars("Parse error: "));
                append_chars(&mut v, &to_chars(m.as_str()));
            },
            DataError::RateLimited { retry_after } => {
                append_chars(&mut v, &to_chars("Rate limited, retry after "));
                append_chars(&mut v, &u64_digits(*retry_after));
                append_chars(&mut v, &to_chars("s"));
            },
            DataError::SymbolNotFound { symbol } => {
                append_chars(&mut v, &to_chars("Symbol not found: "));
                append_chars(&mut v, &to_chars(symbol.as_str()));
            },
            DataError::MarketNotSupported { market } => {
                append_chars(&mut v, &to_chars("Market not supported: "));
                append_chars(&mut v, &to_chars(market.as_str()));
            },
            DataError::Cache(m) => {
                append_chars(&mut v, &to_chars("Cache error: "));
                append_chars(&mut v, &to_chars(m.as_str()));
            },
            DataError::Io(m) => {
                append_chars(&mut v, &to_chars("IO error: "));
                append_chars(&mut v, &to_chars(m.as_str()));
            },
            DataError::Config(m) => {
                append_chars(&mut v, &to_chars("Config error: "));
                append_chars(&mut v, &to_chars(m.as_str()));
            },
        }
        from_chars(&v)
    }
}

} // verus!
