//! ZhituAPI: which symbols it serves, its timestamps and request addresses.

use vstd::prelude::*;
use crate::backtest::engine::day_of_timestamp;
use crate::dates::{cst_date_spec, cst_datetime_spec, day_in_range, day_text, format_day, last_chrono_second, parse_cst_date, parse_cst_datetime, utc_now};
use crate::decimal::{Dec, dec_checked_div, dec_checked_mul, dec_checked_sub, decimal_checked_difference, decimal_difference};
use crate::error::DataError;
use crate::ohlcv::{Quote, change_pct_spec};
use crate::market::{Market, market_name_spec};
use crate::period::{Period, zhitu_adjust, zhitu_level_spec};
use crate::symbol::Symbol;
use crate::text::{cat, from_chars, has_prefix, starts_with, sub_chars, to_chars};

verus! {

/// A ZhituAPI account.
#[derive(Debug)]
pub struct ZhituProvider {
    pub base_url: String,
    pub token: String,
}

/// The code without its exchange prefix "sh", "sz" or "bj", if it has one.
pub open spec fn strip_exchange(code: Seq<char>) -> Option<Seq<char>> {
    if has_prefix(code, seq!['s', 'h']) || has_prefix(code, seq!['s', 'z']) || has_prefix(code, seq!['b', 'j']) {
        Some(code.subrange(2, code.len() as int))
    } else {
        None
    }
}

/// An index: an A-share whose code, after an exchange prefix, starts with
/// 000, 399 or 899. Bare codes count as stocks.
pub open spec fn is_index_spec(s: Symbol) -> bool {
    s.market == Market::AShare && match strip_exchange(s.code@) {
        Some(c) => has_prefix(c, seq!['0', '0', '0']) || has_prefix(c, seq!['3', '9', '9']) || has_prefix(
            c,
            seq!['8', '9', '9'],
        ),
        None => false,
    }
}

/// The code as ZhituAPI takes it: without an exchange prefix.
pub open spec fn bare_code_spec(code: Seq<char>) -> Seq<char> {
    match strip_exchange(code) {
        Some(c) => c,
        None => code,
    }
}

/// A timestamp of the API: `YYYY-MM-DD HH:MM:SS`, else `YYYY-MM-DD` at
/// midnight, both in China Standard Time.
pub open spec fn zhitu_timestamp_spec(t: Seq<char>) -> Option<int> {
    match cst_datetime_spec(t) {
        Some(x) => Some(x),
        None => cst_date_spec(t),
    }
}

/// How `{:?}` writes a period.
pub open spec fn period_debug_spec(p: Period) -> Seq<char> {
    match p {
        Period::Min1 => "Min1"@,
        Period::Min5 => "Min5"@,
        Period::Min15 => "Min15"@,
        Period::Min30 => "Min30"@,
        Period::Min60 => "Min60"@,
        Period::Day1 => "Day1"@,
        Period::Week1 => "Week1"@,
        Period::Month1 => "Month1"@,
        Period::Month3 => "Month3"@,
        Period::Month6 => "Month6"@,
        Period::Year1 => "Year1"@,
        Period::Year5 => "Year5"@,
    }
}

/// How `{:?}` writes a period.
pub fn period_debug(p: Period) -> (r: &'static str)
    ensures
        r@ == period_debug_spec(p),
{
    match p {
        Period::Min1 => "Min1",
        Period::Min5 => "Min5",
        Period::Min15 => "Min15",
        Period::Min30 => "Min30",
        Period::Min60 => "Min60",
        Period::Day1 => "Day1",
        Period::Week1 => "Week1",
        Period::Month1 => "Month1",
        Period::Month3 => "Month3",
        Period::Month6 => "Month6",
        Period::Year1 => "Year1",
        Period::Year5 => "Year5",
    }
}

/// Why ZhituAPI refuses a symbol, if it does: markets other than A-shares
/// (named as displayed) and indices.
pub open spec fn zhitu_refusal(s: Symbol) -> Option<Seq<char>> {
    if s.market != Market::AShare {
        Some(market_name_spec(s.market))
    } else if is_index_spec(s) {
        Some("ZhituAPI does not support index "@ + s.code@)
    } else {
        None
    }
}

impl ZhituProvider {
    /// An account with `token` at the public API address.
    pub fn new(token: String) -> (r: ZhituProvider)
        ensures
            r.base_url@ == "https://api.zhituapi.com"@,
            r.token == token,
    {
        ZhituProvider { base_url: "https://api.zhituapi.com".to_owned(), token }
    }

    /// The same account at another address.
    pub fn with_base_url(self, url: String) -> (r: ZhituProvider)
        ensures
            r.base_url == url,
            r.token == self.token,
    {
        ZhituProvider { base_url: url, token: self.token }
    }

    /// The code without its exchange prefix, if it has one.
    fn strip_exchange(code: &Vec<char>) -> (r: Option<Vec<char>>)
        ensures
            match strip_exchange(code@) {
                Some(c) => r matches Some(x) && x@ == c,
                None => r is None,
            },
    {
        let sh: [char; 2] = ['s', 'h'];
        let sz: [char; 2] = ['s', 'z'];
        let bj: [char; 2] = ['b', 'j'];
        proof {
            assert(sh@ =~= seq!['s', 'h']);
            assert(sz@ =~= seq!['s', 'z']);
            assert(bj@ =~= seq!['b', 'j']);
        }
        if starts_with(code, &sh) || starts_with(code, &sz) || starts_with(code, &bj) {
            Some(sub_chars(code, 2, code.len()))
        } else {
            None
        }
    }

    /// Whether the symbol is an index (ZhituAPI serves individual stocks
    /// only); bare codes such as `000001` count as stocks.
    pub fn is_index_symbol(symbol: &Symbol) -> (r: bool)
        ensures
            r == is_index_spec(*symbol),
    {
        if symbol.market != Market::AShare {
            return false;
        }
        let code = to_chars(symbol.code.as_str());
        match ZhituProvider::strip_exchange(&code) {
            Some(c) => {
                let a: [char; 3] = ['0', '0', '0'];
                let b: [char; 3] = ['3', '9', '9'];
                let d: [char; 3] = ['8', '9', '9'];
                proof {
                    assert(a@ =~= seq!['0', '0', '0']);
                    assert(b@ =~= seq!['3', '9', '9']);
                    assert(d@ =~= seq!['8', '9', '9']);
                }
                starts_with(&c, &a) || starts_with(&c, &b) || starts_with(&c, &d)
            },
            None => false,
        }
    }

    /// Reads a timestamp of the API as seconds since the Unix epoch.
    pub fn parse_timestamp(t: &str) -> (r: Option<i64>)
        ensures
            r matches Some(x) ==> zhitu_timestamp_spec(t@) == Some(x as int),
            r is None ==> zhitu_timestamp_spec(t@) is None,
    {
        match parse_cst_datetime(t) {
            Some(x) => Some(x),
            None => parse_cst_date(t),
        }
    }

    /// ZhituAPI serves A-shares only.
    pub fn supports(&self, market: &Market) -> (r: bool)
        ensures
            r == (*market == Market::AShare),
    {
        *market == Market::AShare
    }

    /// The refusal of a symbol the API does not serve, if any.
    fn refuse(&self, symbol: &Symbol) -> (r: Option<DataError>)
        ensures
            match zhitu_refusal(*symbol) {
                Some(m) => r matches Some(DataError::MarketNotSupported { market }) && market@ == m,
                None => r is None,
            },
    {
        if !self.supports(&symbol.market) {
            return Some(DataError::MarketNotSupported { market: symbol.market.display_name() });
        }
        if ZhituProvider::is_index_symbol(symbol) {
            return Some(DataError::MarketNotSupported {
                market: cat("ZhituAPI does not support index ", symbol.code.as_str()),
            });
        }
        None
    }

    /// The code as the API takes it.
    fn bare_code(symbol: &Symbol) -> (r: String)
        ensures
            r@ == bare_code_spec(symbol.code@),
    {
        let code = to_chars(symbol.code.as_str());
        match ZhituProvider::strip_exchange(&code) {
            Some(c) => from_chars(&c),
            None => symbol.code.clone(),
        }
    }

    /// The address of the real-time quote of `symbol`, or the refusal.
    pub fn quote_url(&self, symbol: &Symbol) -> (r: Result<String, DataError>)
        ensures
            match zhitu_refusal(*symbol) {
                Some(m) => r matches Err(DataError::MarketNotSupported { market }) && market@ == m,
                None => r matches Ok(url) && url@ == self.base_url@ + "/hs/real/ssjy/"@ + bare_code_spec(symbol.code@)
                    + "?token="@ + self.token@,
            },
    {
        if let Some(e) = self.refuse(symbol) {
            return Err(e);
        }
        let s = cat(self.base_url.as_str(), "/hs/real/ssjy/");
        let s = cat(s.as_str(), ZhituProvider::bare_code(symbol).as_str());
        let s = cat(s.as_str(), "?token=");
        Ok(cat(s.as_str(), self.token.as_str()))
    }

    /// The address of the latest 500 forward-adjusted bars of `symbol` over
    /// `period`, or the refusal of the symbol or the period.
    pub fn ohlcv_url(&self, symbol: &Symbol, period: Period) -> (r: Result<String, DataError>)
        ensures
            match zhitu_refusal(*symbol) {
                Some(m) => r matches Err(DataError::MarketNotSupported { market }) && market@ == m,
                None => match zhitu_level_spec(period) {
                    None => r matches Err(DataError::MarketNotSupported { market }) && market@ == "period "@
                        + period_debug_spec(period) + " not supported by ZhituAPI"@,
                    Some(level) => r matches Ok(url) && url@ == self.base_url@ + "/hs/latest/"@ + bare_code_spec(
                        symbol.code@,
                    ) + "/"@ + level + "/"@ + "fr"@ + "?limit=500&token="@ + self.token@,
                },
            },
    {
        if let Some(e) = self.refuse(symbol) {
            return Err(e);
        }
        let level = match period.zhitu_level() {
            Some(l) => l,
            None => {
                let m = cat("period ", period_debug(period));
                return Err(DataError::MarketNotSupported { market: cat(m.as_str(), " not supported by ZhituAPI") });
            },
        };
        let s = cat(self.base_url.as_str(), "/hs/latest/");
        let s = cat(s.as_str(), ZhituProvider::bare_code(symbol).as_str());
        let s = cat(s.as_str(), "/");
        let s = cat(s.as_str(), level);
        let s = cat(s.as_str(), "/");
        let s = cat(s.as_str(), zhitu_adjust());
        let s = cat(s.as_str(), "?limit=500&token=");
        Ok(cat(s.as_str(), self.token.as_str()))
    }

    /// The address of the bars of `symbol` over `period` from the start
    /// of the extended history (see [`extended_lookback_days`]) up to the day
    /// `today` (days from 1970-01-01), forward-adjusted, or the refusal of
    /// the symbol or the period.
    pub fn extended_ohlcv_url(&self, symbol: &Symbol, period: Period, today: i64) -> (r: Result<String, DataError>)
        requires
            day_in_range(today as int),
            day_in_range(today - lookback_days_spec(period)),
        ensures
            extended_url_result(*self, *symbol, period, today as int, r),
    {
        if let Some(e) = self.refuse(symbol) {
            return Err(e);
        }
        let level = match period.zhitu_level() {
            Some(l) => l,
            None => {
                let m = cat("period ", period_debug(period));
                return Err(DataError::MarketNotSupported { market: cat(m.as_str(), " not supported by ZhituAPI") });
            },
        };
        proof {
            reveal_strlit("%Y%m%d");
        }
        let start = today - extended_lookback_days(period);
        let s = cat(self.base_url.as_str(), "/hs/history/");
        let s = cat(s.as_str(), ZhituProvider::bare_code(symbol).as_str());
        let s = cat(s.as_str(), "/");
        let s = cat(s.as_str(), level);
        let s = cat(s.as_str(), "/");
        let s = cat(s.as_str(), zhitu_adjust());
        let s = cat(s.as_str(), "?st=");
        let s = cat(s.as_str(), format_day(start, "%Y%m%d").as_str());
        let s = cat(s.as_str(), "&et=");
        let s = cat(s.as_str(), format_day(today, "%Y%m%d").as_str());
        let s = cat(s.as_str(), "&token=");
        Ok(cat(s.as_str(), self.token.as_str()))
    }

    /// [`ZhituProvider::extended_ohlcv_url`] up to today's UTC date, read
    /// from the clock; `None` where the clock cannot be read as a `chrono`
    /// date-time (before 1970 or past `chrono`'s range).
    pub fn extended_ohlcv_url_now(&self, symbol: &Symbol, period: Period) -> (r: Option<Result<String, DataError>>)
        ensures
            r matches Some(x) ==> exists|today: int|
                0 <= today <= 95026236 && #[trigger] extended_url_result(*self, *symbol, period, today, x),
    {
        match utc_now() {
            Some(t) => {
                let today = day_of_timestamp(t);
                Some(self.extended_ohlcv_url(symbol, period, today))
            },
            None => None,
        }
    }
}

/// `r` is what the extended request of `symbol` over `period` up to day
/// `today` is sent to, or its refusal: the refusals of the other requests,
/// else `/hs/history/{code}/{level}/fr?st={start}&et={today}&token={token}`
/// with both days written as `20240315`.
pub open spec fn extended_url_result(
    p: ZhituProvider,
    symbol: Symbol,
    period: Period,
    today: int,
    r: Result<String, DataError>,
) -> bool {
    match zhitu_refusal(symbol) {
        Some(m) => r matches Err(DataError::MarketNotSupported { market }) && market@ == m,
        None => match zhitu_level_spec(period) {
            None => r matches Err(DataError::MarketNotSupported { market }) && market@ == "period "@
                + period_debug_spec(period) + " not supported by ZhituAPI"@,
            Some(level) => r matches Ok(url) && url@ == p.base_url@ + "/hs/history/"@ + bare_code_spec(symbol.code@)
                + "/"@ + level + "/"@ + "fr"@ + "?st="@ + day_text(today - lookback_days_spec(period), "%Y%m%d"@)
                + "&et="@ + day_text(today, "%Y%m%d"@) + "&token="@ + p.token@,
        },
    }
}

/// Days of history the extended request reaches back: a month for the
/// month chart, three months for the quarter, six for the half year, a
/// year for the year, five years for five; a month otherwise.
pub open spec fn lookback_days_spec(p: Period) -> int {
    match p {
        Period::Month1 => 30,
        Period::Month3 => 90,
        Period::Month6 => 180,
        Period::Year1 => 365,
        Period::Year5 => 1825,
        _ => 30,
    }
}

/// The days of history the extended request of `period` reaches back.
pub fn extended_lookback_days(period: Period) -> (r: i64)
    ensures
        r == lookback_days_spec(period),
{
    match period {
        Period::Month1 => 30,
        Period::Month3 => 90,
        Period::Month6 => 180,
        Period::Year1 => 365,
        Period::Year5 => 1825,
        _ => 30,
    }
}

/// The fields of a ZhituAPI real-time quote that the library reads, their
/// numbers already decimals: price, previous close, open, high, low,
/// volume, P/E, market value and time.
#[derive(Debug)]
pub struct ZhituQuoteFields {
    pub p: Option<Dec>,
    pub yc: Option<Dec>,
    pub o: Option<Dec>,
    pub h: Option<Dec>,
    pub l: Option<Dec>,
    pub v: Option<u64>,
    pub pe: Option<Dec>,
    pub sz: Option<Dec>,
    pub t: Option<String>,
}

/// The figures of a ZhituAPI quote: price and previous close must be
/// present; the change is price minus previous close and its percentage
/// that of the previous close (zero when that is zero). The error texts say
/// what was wrong; a change beyond `rust_decimal`'s range is reported as a
/// parse error.
pub open spec fn zhitu_quote_spec(f: ZhituQuoteFields) -> Result<((int, int), (int, int), (int, int)), Seq<char>> {
    match f.p {
        None => Err("missing price field 'p'"@),
        Some(p) => match f.yc {
            None => Err("missing prev_close field 'yc'"@),
            Some(yc) => match decimal_checked_difference(p@, yc@) {
                None => Err("price change out of range"@),
                Some(change) => match change_pct_spec(change, yc@) {
                    None => Err("price change out of range"@),
                    Some(pct) => Ok((p@, change, pct)),
                },
            },
        },
    }
}

/// Law: a quote read from ZhituAPI's fields has the field `p` as its price
/// and `p` minus the previous close `yc` as its change.
pub proof fn lemma_zhitu_quote_figures(f: ZhituQuoteFields)
    ensures
        zhitu_quote_spec(f) matches Ok((price, change, pct)) ==> {
            &&& f.p matches Some(p) && price == p@
            &&& f.yc matches Some(yc) && change == decimal_difference(price, yc@)
        },
{
}

/// The quote carries a time of its own that reads as a date-time.
pub open spec fn quote_time_read(f: ZhituQuoteFields) -> bool {
    f.t matches Some(t) && zhitu_timestamp_spec(t@) is Some
}

/// The quote of `symbol` from ZhituAPI's fields. Its time is the quote's
/// own when it reads, else the current time read from the clock (the quote
/// is refused with "system clock out of range" where the clock cannot be
/// read as a `chrono` date-time); the name and 52-week range are absent.
pub fn zhitu_quote(f: &ZhituQuoteFields, symbol: &Symbol) -> (r: Result<Quote, DataError>)
    ensures
        match zhitu_quote_spec(*f) {
            Err(m) => r matches Err(DataError::Parse(e)) && e@ == m,
            Ok((price, change, pct)) => {
                ||| (!quote_time_read(*f) && (r matches Err(DataError::Parse(e)) && e@ == "system clock out of range"@))
                ||| r matches Ok(q) && {
                &&& q.symbol == *symbol
                &&& q.price@ == price
                &&& q.change@ == change
                &&& q.change_pct@ == pct
                &&& q.open == f.o
                &&& q.high == f.h
                &&& q.low == f.l
                &&& q.volume == f.v
                &&& q.pe_ratio == f.pe
                &&& q.market_cap == f.sz
                &&& q.week_52_high is None
                &&& q.week_52_low is None
                &&& q.name is None
                &&& (f.t matches Some(t) ==> (zhitu_timestamp_spec(t@) matches Some(x) ==> q.timestamp == x))
                &&& (!quote_time_read(*f) ==> 0 <= q.timestamp <= last_chrono_second())
                }
            },
        },
{
    let price = match f.p {
        Some(p) => p,
        None => {
            return Err(DataError::Parse("missing price field 'p'".to_owned()));
        },
    };
    let prev_close = match f.yc {
        Some(y) => y,
        None => {
            return Err(DataError::Parse("missing prev_close field 'yc'".to_owned()));
        },
    };
    let change = match dec_checked_sub(price, prev_close) {
        Some(c) => c,
        None => {
            return Err(DataError::Parse("price change out of range".to_owned()));
        },
    };
    let change_pct = if prev_close.is_zero() {
        Dec::zero()
    } else {
        let q = match dec_checked_div(change, prev_close) {
            Some(q) => q,
            None => {
                return Err(DataError::Parse("price change out of range".to_owned()));
            },
        };
        match dec_checked_mul(q, Dec::from_i64(100)) {
            Some(x) => x,
            None => {
                return Err(DataError::Parse("price change out of range".to_owned()));
            },
        }
    };
    let read = match &f.t {
        Some(t) => ZhituProvider::parse_timestamp(t.as_str()),
        None => None,
    };
    let timestamp = match read {
        Some(x) => x,
        None => match utc_now() {
            Some(t) => t,
            None => {
                return Err(DataError::Parse("system clock out of range".to_owned()));
            },
        },
    };
    Ok(Quote {
        symbol: symbol.clone(),
        price,
        change,
        change_pct,
        open: f.o,
        high: f.h,
        low: f.l,
        volume: f.v,
        market_cap: f.sz,
        pe_ratio: f.pe,
        week_52_high: None,
        week_52_low: None,
        name: None,
        timestamp,
    })
}

} // verus!
