//! AKTools (AkShare over HTTP): ticker forms and request addresses.

use vstd::prelude::*;
use crate::error::DataError;
use crate::market::{Market, market_name_spec};
use crate::period::{Period, akshare_period_spec, intraday};
use crate::symbol::Symbol;
use crate::text::{cat, has_prefix, starts_with, sub_chars, from_chars, to_chars};

verus! {

/// An AKTools server.
#[derive(Debug)]
pub struct AkShareProvider {
    pub base_url: String,
}

/// The code carries an exchange prefix "sh" or "sz".
pub open spec fn has_exchange_prefix(code: Seq<char>) -> bool {
    has_prefix(code, seq!['s', 'h']) || has_prefix(code, seq!['s', 'z'])
}

/// The minute-bar ticker: the code as it is when prefixed, else "sh" before
/// codes starting with 6 (Shanghai) and "sz" before the others.
pub open spec fn minute_symbol_spec(code: Seq<char>) -> Seq<char> {
    if has_exchange_prefix(code) {
        code
    } else if has_prefix(code, seq!['6']) {
        seq!['s', 'h'] + code
    } else {
        seq!['s', 'z'] + code
    }
}

/// The daily-history ticker: the bare code, without an exchange prefix.
pub open spec fn hist_symbol_spec(code: Seq<char>) -> Seq<char> {
    if has_exchange_prefix(code) {
        code.subrange(2, code.len() as int)
    } else {
        code
    }
}

/// The address of the bars of `code` over `period`: the minute endpoint
/// for intraday periods, the history endpoint otherwise, both forward
/// adjusted.
pub open spec fn akshare_url_spec(base: Seq<char>, code: Seq<char>, period: Period) -> Seq<char> {
    if intraday(period) {
        base + "/api/public/stock_zh_a_minute?symbol="@ + minute_symbol_spec(code) + "&period="@
            + akshare_period_spec(period) + "&adjust=qfq"@
    } else {
        base + "/api/public/stock_zh_a_hist?symbol="@ + hist_symbol_spec(code) + "&period="@
            + akshare_period_spec(period) + "&start_date=19900101&end_date=29991231&adjust=qfq"@
    }
}

impl AkShareProvider {
    /// A provider for the AKTools server at its local default address.
    pub fn new() -> (r: AkShareProvider)
        ensures
            r.base_url@ == "http://127.0.0.1:8080"@,
    {
        AkShareProvider { base_url: "http://127.0.0.1:8080".to_owned() }
    }

    /// A provider for the AKTools server at `url`.
    pub fn with_base_url(url: String) -> (r: AkShareProvider)
        ensures
            r.base_url == url,
    {
        AkShareProvider { base_url: url }
    }

    /// The ticker for minute bars.
    pub fn minute_symbol(sym: &Symbol) -> (r: String)
        ensures
            r@ == minute_symbol_spec(sym.code@),
    {
        let code = to_chars(sym.code.as_str());
        let sh: [char; 2] = ['s', 'h'];
        let sz: [char; 2] = ['s', 'z'];
        let six: [char; 1] = ['6'];
        proof {
            assert(sh@ =~= seq!['s', 'h']);
            assert(sz@ =~= seq!['s', 'z']);
            assert(six@ =~= seq!['6']);
        }
        if starts_with(&code, &sh) || starts_with(&code, &sz) {
            sym.code.clone()
        } else if starts_with(&code, &six) {
            proof {
                reveal_strlit("sh");
                assert("sh"@ =~= seq!['s', 'h']);
            }
            cat("sh", sym.code.as_str())
        } else {
            proof {
                reveal_strlit("sz");
                assert("sz"@ =~= seq!['s', 'z']);
            }
            cat("sz", sym.code.as_str())
        }
    }

    /// The ticker for daily history.
    pub fn hist_symbol(sym: &Symbol) -> (r: String)
        ensures
            r@ == hist_symbol_spec(sym.code@),
    {
        let code = to_chars(sym.code.as_str());
        if starts_with(&code, &['s', 'h']) || starts_with(&code, &['s', 'z']) {
            from_chars(&sub_chars(&code, 2, code.len()))
        } else {
            sym.code.clone()
        }
    }

    /// AKTools serves A-shares only.
    pub fn supports(&self, market: &Market) -> (r: bool)
        ensures
            r == (*market == Market::AShare),
    {
        *market == Market::AShare
    }

    /// The address to fetch the bars of `symbol` over `period` from, or the
    /// refusal of a market other than A-shares.
    pub fn ohlcv_url(&self, symbol: &Symbol, period: Period) -> (r: Result<String, DataError>)
        ensures
            symbol.market != Market::AShare ==> (r matches Err(DataError::MarketNotSupported { market })
                && market@ == market_name_spec(symbol.market)),
            symbol.market == Market::AShare ==> (r matches Ok(url) && url@ == akshare_url_spec(
                self.base_url@,
                symbol.code@,
                period,
            )),
    {
        if !self.supports(&symbol.market) {
            return Err(DataError::MarketNotSupported { market: symbol.market.display_name() });
        }
        if period.is_intraday() {
            let s = cat(self.base_url.as_str(), "/api/public/stock_zh_a_minute?symbol=");
            let s = cat(s.as_str(), AkShareProvider::minute_symbol(symbol).as_str());
            let s = cat(s.as_str(), "&period=");
            let s = cat(s.as_str(), period.akshare_period());
            Ok(cat(s.as_str(), "&adjust=qfq"))
        } else {
            let s = cat(self.base_url.as_str(), "/api/public/stock_zh_a_hist?symbol=");
            let s = cat(s.as_str(), AkShareProvider::hist_symbol(symbol).as_str());
            let s = cat(s.as_str(), "&period=");
            let s = cat(s.as_str(), period.akshare_period());
            Ok(cat(s.as_str(), "&start_date=19900101&end_date=29991231&adjust=qfq"))
        }
    }
}

} // verus!
