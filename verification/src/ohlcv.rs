//! Price bars and quotes.

use vstd::prelude::*;
use crate::decimal::{
    Dec, dec_checked_div, dec_checked_mul, dec_checked_sub, dec_lt, dec_to_text_2dp, decimal_checked_difference,
    decimal_checked_product, decimal_checked_quotient, decimal_text_2dp, int_model, less_value, zero_model,
};
use crate::symbol::Symbol;
use crate::text::{append_chars, from_chars, to_chars};

verus! {

/// One bar: open, high, low and close prices and the traded volume.
/// `timestamp` is in seconds since the Unix epoch (UTC).
#[derive(Debug)]
pub struct OHLCV {
    pub symbol: Symbol,
    pub timestamp: i64,
    pub open: Dec,
    pub high: Dec,
    pub low: Dec,
    pub close: Dec,
    pub volume: u64,
}

impl Clone for OHLCV {
    fn clone(&self) -> (r: Self)
        ensures
            r == *self,
    {
        OHLCV {
            symbol: self.symbol.clone(),
            timestamp: self.timestamp,
            open: self.open,
            high: self.high,
            low: self.low,
            close: self.close,
            volume: self.volume,
        }
    }
}

/// The change in percent of the previous close: 0 when the previous close
/// is zero, else `change / prev_close * 100`.
pub open spec fn change_pct_spec(change: (int, int), prev: (int, int)) -> Option<(int, int)> {
    if prev.0 == 0 {
        Some(zero_model())
    } else {
        match decimal_checked_quotient(change, prev) {
            None => None,
            Some(q) => decimal_checked_product(q, int_model(100)),
        }
    }
}

impl OHLCV {
    /// The move from open to close in percent of the open (zero for a zero
    /// open), or `None` when a step falls outside `rust_decimal`'s range.
    pub fn change_pct(&self) -> (r: Option<Dec>)
        ensures
            match decimal_checked_difference(self.close@, self.open@) {
                None => r is None,
                Some(change) => match change_pct_spec(change, self.open@) {
                    None => r is None,
                    Some(p) => r matches Some(x) && x@ == p,
                },
            },
    {
        let change = dec_checked_sub(self.close, self.open)?;
        if self.open.is_zero() {
            Some(Dec::zero())
        } else {
            let q = dec_checked_div(change, self.open)?;
            dec_checked_mul(q, Dec::from_i64(100))
        }
    }
}

/// A real-time quote. `timestamp` is in seconds since the Unix epoch (UTC).
#[derive(Debug)]
pub struct Quote {
    pub symbol: Symbol,
    pub price: Dec,
    pub change: Dec,
    pub change_pct: Dec,
    pub open: Option<Dec>,
    pub high: Option<Dec>,
    pub low: Option<Dec>,
    pub volume: Option<u64>,
    pub market_cap: Option<Dec>,
    pub pe_ratio: Option<Dec>,
    pub week_52_high: Option<Dec>,
    pub week_52_low: Option<Dec>,
    pub name: Option<String>,
    pub timestamp: i64,
}

impl Clone for Quote {
    fn clone(&self) -> (r: Self)
        ensures
            r == *self,
    {
        let name = match &self.name {
            Some(n) => Some(n.clone()),
            None => None,
        };
        Quote {
            symbol: self.symbol.clone(),
            price: self.price,
            change: self.change,
            change_pct: self.change_pct,
            open: self.open,
            high: self.high,
            low: self.low,
            volume: self.volume,
            market_cap: self.market_cap,
            pe_ratio: self.pe_ratio,
            week_52_high: self.week_52_high,
            week_52_low: self.week_52_low,
            name,
            timestamp: self.timestamp,
        }
    }
}

/// The change is not negative.
pub open spec fn quote_up(q: Quote) -> bool {
    !less_value(q.change@, zero_model())
}

/// The sign shown before a change: "+" when it is not negative.
pub open spec fn change_sign_spec(q: Quote) -> Seq<char> {
    if quote_up(q) {
        "+"@
    } else {
        ""@
    }
}

/// `"{sign}{change:.2} ({sign}{change_pct:.2}%)"`.
pub open spec fn change_display_spec(q: Quote) -> Seq<char> {
    change_sign_spec(q) + decimal_text_2dp(q.change@) + " ("@ + change_sign_spec(q)
        + decimal_text_2dp(q.change_pct@) + "%)"@
}

impl Quote {
    /// True when the change is zero or positive.
    pub fn is_positive(&self) -> (r: bool)
        ensures
            r == quote_up(*self),
    {
        !dec_lt(self.change, Dec::zero())
    }

    /// "+" for a change of zero or more, else the empty string.
    pub fn change_sign(&self) -> (r: &'static str)
        ensures
            r@ == change_sign_spec(*self),
    {
        if self.is_positive() {
            "+"
        } else {
            ""
        }
    }

    /// The change and its percentage, e.g. "+1.25 (+0.68%)".
    pub fn change_display(&self) -> (r: String)
        ensures
            r@ == change_display_spec(*self),
    {
        let sign = self.change_sign();
        let mut out = to_chars(sign);
        append_chars(&mut out, &to_chars(dec_to_text_2dp(self.change).as_str()));
        append_chars(&mut out, &to_chars(" ("));
        append_chars(&mut out, &to_chars(sign));
        append_chars(&mut out, &to_chars(dec_to_text_2dp(self.change_pct).as_str()));
        append_chars(&mut out, &to_chars("%)"));
        from_chars(&out)
    }
}

} // verus!
