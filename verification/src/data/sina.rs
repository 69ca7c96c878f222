//! Sina Finance: its quote, suggestion and K-line responses.

use vstd::prelude::*;
use crate::dates::{cst_date_spec, last_chrono_second, parse_cst_date, utc_now};
use crate::decimal::{
    Dec, dec_checked_div, dec_checked_mul, dec_checked_sub, dec_parse, decimal_checked_difference, decimal_difference,
    decimal_parse,
};
use crate::error::{DataError, digits, u64_digits};
use crate::market::{Market, market_name_spec};
use crate::period::{Period, intraday, sina_kline_datalen, sina_kline_scale, sina_scale_spec};
use crate::data::zhitu::{period_debug, period_debug_spec};
use crate::symbol::sina_ticker_spec;
use crate::ohlcv::{OHLCV, Quote, change_pct_spec};
use crate::symbol::Symbol;
use crate::text::{
    append_chars, cat, find_char, first_of, from_chars, last_of, parse_u64, rfind_char, split_char, split_seq,
    sub_chars, to_chars, trim, trim_seq, u64_parse, views_of,
};

verus! {

/// One entry of Sina's stock-name suggestions.
#[derive(Debug)]
pub struct StockSuggestion {
    pub code: String,
    pub name: String,
}

impl Clone for StockSuggestion {
    fn clone(&self) -> (r: Self)
        ensures
            r == *self,
    {
        StockSuggestion { code: self.code.clone(), name: self.name.clone() }
    }
}

/// Where the quoted payload of a response starts: after the first double
/// quote, or at 0 without one.
pub open spec fn quote_start(t: Seq<char>) -> int {
    match first_of(t, '"') {
        Some(i) => i + 1,
        None => 0,
    }
}

/// Where the quoted payload of a response ends: at the last double quote,
/// or at the end without one.
pub open spec fn quote_end(t: Seq<char>) -> int {
    match last_of(t, '"') {
        Some(j) => j,
        None => t.len() as int,
    }
}

/// The code and name of a suggestion entry `code,type,name,...`: at least
/// three comma-separated fields with a non-empty (trimmed) code and name.
pub open spec fn suggestion_of(entry: Seq<char>) -> Option<(Seq<char>, Seq<char>)> {
    let parts = split_seq(entry, ',');
    if parts.len() < 3 {
        None
    } else {
        let code = trim_seq(parts[0]);
        let name = trim_seq(parts[2]);
        if code.len() == 0 || name.len() == 0 {
            None
        } else {
            Some((code, name))
        }
    }
}

/// The suggestions of a list of entries, the malformed ones skipped.
pub open spec fn suggestions_of(entries: Seq<Seq<char>>) -> Seq<(Seq<char>, Seq<char>)>
    decreases entries.len(),
{
    if entries.len() == 0 {
        Seq::empty()
    } else {
        let rest = suggestions_of(entries.drop_last());
        match suggestion_of(entries.last()) {
            Some(s) => rest.push(s),
            None => rest,
        }
    }
}

/// The suggestions in a response `var x="e1|e2|...";`: the `|`-separated
/// entries of the quoted payload.
pub open spec fn suggest_spec(t: Seq<char>) -> Seq<(Seq<char>, Seq<char>)> {
    let s = quote_start(t);
    let e = quote_end(t);
    if s >= e {
        Seq::empty()
    } else {
        suggestions_of(split_seq(t.subrange(s, e), '|'))
    }
}

/// Code and name of each suggestion.
pub open spec fn suggestion_views(v: Seq<StockSuggestion>) -> Seq<(Seq<char>, Seq<char>)> {
    v.map_values(|s: StockSuggestion| (s.code@, s.name@))
}

/// Parses Sina's suggestion response into code/name pairs.
pub fn parse_sina_suggest(text: &str) -> (r: Vec<StockSuggestion>)
    ensures
        suggestion_views(r@) == suggest_spec(text@),
{
    let t = to_chars(text);
    let start = match find_char(&t, '"') {
        Some(i) => i + 1,
        None => 0,
    };
    let end = match rfind_char(&t, '"') {
        Some(j) => j,
        None => t.len(),
    };
    let mut out: Vec<StockSuggestion> = Vec::new();
    if start >= end {
        proof {
            assert(suggestion_views(out@) =~= Seq::<(Seq<char>, Seq<char>)>::empty());
        }
        return out;
    }
    let content = sub_chars(&t, start, end);
    let entries = split_char(&content, '|');
    let ghost es = views_of(entries@);
    let mut i: usize = 0;
    proof {
        assert(es.take(0) =~= Seq::<Seq<char>>::empty());
        assert(suggestion_views(out@) =~= Seq::<(Seq<char>, Seq<char>)>::empty());
    }
    while i < entries.len()
        invariant
            i <= entries@.len(),
            es == views_of(entries@),
            suggestion_views(out@) == suggestions_of(es.take(i as int)),
        decreases entries@.len() - i,
    {
        let entry = &entries[i];
        proof {
            assert(es.take(i as int + 1).drop_last() =~= es.take(i as int));
            assert(es.take(i as int + 1).last() == entry@);
        }
        let parts = split_char(entry.as_slice(), ',');
        if parts.len() >= 3 {
            proof {
                assert(parts@[0]@ == views_of(parts@)[0]);
                assert(parts@[2]@ == views_of(parts@)[2]);
            }
            let code = trim(parts[0].as_slice());
            let name = trim(parts[2].as_slice());
            if code.len() > 0 && name.len() > 0 {
                let ghost before = out@;
                out.push(StockSuggestion { code: from_chars(&code), name: from_chars(&name) });
                proof {
                    assert(suggestion_views(out@) =~= suggestion_views(before).push((code@, name@)));
                }
            }
        }
        i = i + 1;
    }
    proof {
        assert(es.take(entries@.len() as int) =~= es);
    }
    out
}

/// The figures of a Sina quote.
pub struct SinaQuoteModel {
    pub name: Seq<char>,
    pub open: (int, int),
    pub high: (int, int),
    pub low: (int, int),
    pub price: (int, int),
    pub volume: int,
    pub change: (int, int),
    pub change_pct: (int, int),
}

/// A decimal field, trimmed; the error names the field as it stands.
pub open spec fn sina_decimal(f: Seq<char>) -> Result<(int, int), Seq<char>> {
    match decimal_parse(trim_seq(f)) {
        Some(d) => Ok(d),
        None => Err("cannot parse '"@ + f + "' as decimal"@),
    }
}

/// The quote in a response `var hq_str_x="name,open,prev_close,price,high,
/// low,_,_,volume,...";`: the payload between the first and last double
/// quotes must hold at least ten comma-separated fields; the change is
/// price minus previous close. The error texts say what was wrong.
pub open spec fn sina_quote_spec(t: Seq<char>) -> Result<SinaQuoteModel, Seq<char>> {
    match first_of(t, '"') {
        None => Err("no opening quote"@),
        Some(i) => match last_of(t, '"') {
            None => Err("no closing quote"@),
            Some(j) => if i + 1 >= j {
                Err("empty response"@)
            } else {
                let f = split_seq(t.subrange(i + 1, j), ',');
                if f.len() < 10 {
                    Err("too few fields: "@ + digits(f.len()))
                } else {
                    match (sina_decimal(f[1]), sina_decimal(f[2]), sina_decimal(f[3]), sina_decimal(f[4]), sina_decimal(f[5])) {
                        (Err(m), _, _, _, _) => Err(m),
                        (Ok(_), Err(m), _, _, _) => Err(m),
                        (Ok(_), Ok(_), Err(m), _, _) => Err(m),
                        (Ok(_), Ok(_), Ok(_), Err(m), _) => Err(m),
                        (Ok(_), Ok(_), Ok(_), Ok(_), Err(m)) => Err(m),
                        (Ok(open), Ok(prev), Ok(price), Ok(high), Ok(low)) => {
                            let volume = match u64_parse(trim_seq(f[8])) {
                                Some(v) => v as int,
                                None => 0,
                            };
                            match decimal_checked_difference(price, prev) {
                                None => Err("price change out of range"@),
                                Some(change) => match change_pct_spec(change, prev) {
                                    None => Err("price change out of range"@),
                                    Some(pct) => Ok(
                                        SinaQuoteModel {
                                            name: f[0],
                                            open,
                                            high,
                                            low,
                                            price,
                                            volume,
                                            change,
                                            change_pct: pct,
                                        },
                                    ),
                                },
                            }
                        },
                    }
                }
            },
        },
    }
}

/// Law: a quote read from a Sina response takes its figures from the
/// comma-separated fields between the first and last double quotes: the
/// name from field 0, the open from field 1, the price from field 3, the
/// high from field 4 and the low from field 5, and its change is the price
/// minus the previous close of field 2.
pub proof fn lemma_sina_quote_fields(t: Seq<char>)
    ensures
        sina_quote_spec(t) matches Ok(m) ==> {
            let f = split_seq(t.subrange(first_of(t, '"')->0 + 1, last_of(t, '"')->0), ',');
            &&& f.len() >= 10
            &&& m.name == f[0]
            &&& decimal_parse(trim_seq(f[1])) == Some(m.open)
            &&& decimal_parse(trim_seq(f[3])) == Some(m.price)
            &&& decimal_parse(trim_seq(f[4])) == Some(m.high)
            &&& decimal_parse(trim_seq(f[5])) == Some(m.low)
            &&& decimal_parse(trim_seq(f[2])) matches Some(prev) && m.change == decimal_difference(m.price, prev)
        },
{
}

/// `q` carries the figures of `m` for `symbol`: open, high and low, the
/// volume and the name present; market cap, P/E and 52-week range absent.
pub open spec fn quote_matches(q: Quote, m: SinaQuoteModel, symbol: Symbol) -> bool {
    &&& q.symbol == symbol
    &&& q.price@ == m.price
    &&& q.change@ == m.change
    &&& q.change_pct@ == m.change_pct
    &&& q.open matches Some(o) && o@ == m.open
    &&& q.high matches Some(h) && h@ == m.high
    &&& q.low matches Some(l) && l@ == m.low
    &&& q.volume == Some(m.volume as u64)
    &&& q.market_cap is None
    &&& q.pe_ratio is None
    &&& q.week_52_high is None
    &&& q.week_52_low is None
    &&& q.name matches Some(n) && n@ == m.name
}

/// A decimal field of the quote response.
fn parse_field(f: &Vec<char>) -> (r: Result<Dec, DataError>)
    ensures
        match sina_decimal(f@) {
            Ok(d) => r matches Ok(x) && x@ == d,
            Err(m) => r matches Err(DataError::Parse(e)) && e@ == m,
        },
{
    let t = from_chars(&trim(f.as_slice()));
    match dec_parse(t.as_str()) {
        Some(d) => Ok(d),
        None => {
            let mut msg = to_chars("cannot parse '");
            append_chars(&mut msg, f.as_slice());
            append_chars(&mut msg, &to_chars("' as decimal"));
            Err(DataError::Parse(from_chars(&msg)))
        },
    }
}

/// A parse error with a fixed message.
fn parse_error(msg: &str) -> (r: DataError)
    ensures
        r matches DataError::Parse(m) && m@ == msg@,
{
    DataError::Parse(msg.to_owned())
}

/// Parses Sina's real-time quote response for `symbol`. The quote is
/// stamped with the current time, read from the clock; where the clock
/// cannot be read as a `chrono` date-time the quote is refused with
/// "system clock out of range". A change figure beyond `rust_decimal`'s
/// range is reported as a parse error.
pub fn parse_sina_response(text: &str, symbol: &Symbol) -> (r: Result<Quote, DataError>)
    ensures
        match sina_quote_spec(text@) {
            Ok(m) => (r matches Ok(q) && quote_matches(q, m, *symbol) && 0 <= q.timestamp <= last_chrono_second())
                || (r matches Err(DataError::Parse(e)) && e@ == "system clock out of range"@),
            Err(msg) => r matches Err(DataError::Parse(e)) && e@ == msg,
        },
{
    let t = to_chars(text);
    let i = match find_char(&t, '"') {
        Some(i) => i,
        None => {
            return Err(parse_error("no opening quote"));
        },
    };
    let j = match rfind_char(&t, '"') {
        Some(j) => j,
        None => {
            return Err(parse_error("no closing quote"));
        },
    };
    if i >= j || i + 1 >= j {
        return Err(parse_error("empty response"));
    }
    let data = sub_chars(&t, i + 1, j);
    let fields = split_char(&data, ',');
    proof {
        assert(views_of(fields@).len() == fields@.len());
    }
    if fields.len() < 10 {
        let mut msg = to_chars("too few fields: ");
        append_chars(&mut msg, &u64_digits(fields.len() as u64));
        return Err(DataError::Parse(from_chars(&msg)));
    }
    proof {
        assert forall|k: int| 0 <= k < fields@.len() implies (#[trigger] fields@[k])@ == views_of(fields@)[k] by {}
    }
    let name = from_chars(fields[0].as_slice());
    let open = parse_field(&fields[1])?;
    let prev_close = parse_field(&fields[2])?;
    let price = parse_field(&fields[3])?;
    let high = parse_field(&fields[4])?;
    let low = parse_field(&fields[5])?;
    let volume = match parse_u64(from_chars(&trim(fields[8].as_slice())).as_str()) {
        Some(v) => v,
        None => 0,
    };
    let change = match dec_checked_sub(price, prev_close) {
        Some(c) => c,
        None => {
            return Err(parse_error("price change out of range"));
        },
    };
    let change_pct = if prev_close.is_zero() {
        Dec::zero()
    } else {
        let q = match dec_checked_div(change, prev_close) {
            Some(q) => q,
            None => {
                return Err(parse_error("price change out of range"));
            },
        };
        match dec_checked_mul(q, Dec::from_i64(100)) {
            Some(p) => p,
            None => {
                return Err(parse_error("price change out of range"));
            },
        }
    };
    let timestamp = match utc_now() {
        Some(t) => t,
        None => {
            return Err(parse_error("system clock out of range"));
        },
    };
    Ok(Quote {
        symbol: symbol.clone(),
        price,
        change,
        change_pct,
        open: Some(open),
        high: Some(high),
        low: Some(low),
        volume: Some(volume),
        market_cap: None,
        pe_ratio: None,
        week_52_high: None,
        week_52_low: None,
        name: Some(name),
        timestamp,
    })
}

/// One bar of Sina's K-line response; every field is text.
#[derive(Debug)]
pub struct SinaKlineBar {
    pub day: String,
    pub open: String,
    pub high: String,
    pub low: String,
    pub close: String,
    pub volume: String,
}

/// The time, prices and volume of a K-line bar: the day at midnight China
/// Standard Time, the four prices as decimals (untrimmed) and the volume
/// (0 when it does not parse); `None` when the day or a price does not
/// parse.
pub open spec fn kline_row(b: SinaKlineBar) -> Option<(int, (int, int), (int, int), (int, int), (int, int), int)> {
    match (cst_date_spec(b.day@), decimal_parse(b.open@), decimal_parse(b.high@), decimal_parse(b.low@), decimal_parse(b.close@)) {
        (Some(ts), Some(o), Some(h), Some(l), Some(c)) => Some(
            (
                ts,
                o,
                h,
                l,
                c,
                match u64_parse(b.volume@) {
                    Some(v) => v as int,
                    None => 0,
                },
            ),
        ),
        _ => None,
    }
}

/// The rows of the bars that parse, in order.
pub open spec fn kline_rows(bs: Seq<SinaKlineBar>) -> Seq<(int, (int, int), (int, int), (int, int), (int, int), int)>
    decreases bs.len(),
{
    if bs.len() == 0 {
        Seq::empty()
    } else {
        let rest = kline_rows(bs.drop_last());
        match kline_row(bs.last()) {
            Some(r) => rest.push(r),
            None => rest,
        }
    }
}

/// Time, prices and volume of a bar.
pub open spec fn bar_row(b: OHLCV) -> (int, (int, int), (int, int), (int, int), (int, int), int) {
    (b.timestamp as int, b.open@, b.high@, b.low@, b.close@, b.volume as int)
}

/// Time, prices and volume of each bar.
pub open spec fn ohlcv_rows(v: Seq<OHLCV>) -> Seq<(int, (int, int), (int, int), (int, int), (int, int), int)> {
    v.map_values(|b: OHLCV| (b.timestamp as int, b.open@, b.high@, b.low@, b.close@, b.volume as int))
}

/// `row` holds the fields of `b` read as they are written: the day at
/// midnight China Standard Time, and the open, high, low and close prices
/// read as decimals, each from its own field.
pub open spec fn row_reads_bar(
    row: (int, (int, int), (int, int), (int, int), (int, int), int),
    b: SinaKlineBar,
) -> bool {
    &&& cst_date_spec(b.day@) == Some(row.0)
    &&& decimal_parse(b.open@) == Some(row.1)
    &&& decimal_parse(b.high@) == Some(row.2)
    &&& decimal_parse(b.low@) == Some(row.3)
    &&& decimal_parse(b.close@) == Some(row.4)
}

/// `row` holds the fields of one of the bars of `bs`.
pub open spec fn row_of_some_bar(
    row: (int, (int, int), (int, int), (int, int), (int, int), int),
    bs: Seq<SinaKlineBar>,
) -> bool {
    exists|j: int| 0 <= j < bs.len() && #[trigger] row_reads_bar(row, bs[j])
}

/// Law: every row read from Sina's K-line bars comes from one of them, and
/// takes its time, open, high, low and close from that bar's day, open,
/// high, low and close fields; no row comes from nothing, and a bar whose
/// fields all read gives the last row when it comes last.
pub proof fn lemma_kline_rows_read_bars(bs: Seq<SinaKlineBar>, i: int)
    requires
        0 <= i < kline_rows(bs).len(),
    ensures
        row_of_some_bar(kline_rows(bs)[i], bs),
    decreases bs.len(),
{
    let rest = kline_rows(bs.drop_last());
    if i < rest.len() {
        lemma_kline_rows_read_bars(bs.drop_last(), i);
        let j = choose|j: int| 0 <= j < bs.drop_last().len() && #[trigger] row_reads_bar(rest[i], bs.drop_last()[j]);
        assert(bs.drop_last()[j] == bs[j]);
        assert(row_reads_bar(kline_rows(bs)[i], bs[j]));
    } else {
        let j = bs.len() - 1;
        assert(bs[j] == bs.last());
        assert(row_reads_bar(kline_rows(bs)[i], bs[j]));
    }
}

/// Bars whose rows are those read from `bs` each take their fields from one
/// of them.
proof fn lemma_bars_read_rows(out: Seq<OHLCV>, bs: Seq<SinaKlineBar>)
    requires
        ohlcv_rows(out) == kline_rows(bs),
    ensures
        forall|i: int| 0 <= i < out.len() ==> row_of_some_bar(bar_row(#[trigger] out[i]), bs),
{
    assert forall|i: int| 0 <= i < out.len() implies row_of_some_bar(bar_row(#[trigger] out[i]), bs) by {
        assert(ohlcv_rows(out)[i] == bar_row(out[i]));
        assert(ohlcv_rows(out).len() == out.len());
        lemma_kline_rows_read_bars(bs, i);
    }
}

/// Converts Sina's K-line bars for `symbol`, skipping those whose day or
/// prices do not parse.
pub fn parse_sina_kline_bars(bars: &[SinaKlineBar], symbol: &Symbol) -> (r: Vec<OHLCV>)
    ensures
        ohlcv_rows(r@) == kline_rows(bars@),
        forall|i: int| 0 <= i < r@.len() ==> (#[trigger] r@[i]).symbol == *symbol,
        forall|i: int| 0 <= i < r@.len() ==> row_of_some_bar(bar_row(#[trigger] r@[i]), bars@),
{
    let mut out: Vec<OHLCV> = Vec::new();
    let mut i: usize = 0;
    proof {
        assert(bars@.take(0) =~= Seq::<SinaKlineBar>::empty());
        assert(ohlcv_rows(out@) =~= Seq::<(int, (int, int), (int, int), (int, int), (int, int), int)>::empty());
    }
    while i < bars.len()
        invariant
            i <= bars@.len(),
            ohlcv_rows(out@) == kline_rows(bars@.take(i as int)),
            forall|k: int| 0 <= k < out@.len() ==> (#[trigger] out@[k]).symbol == *symbol,
        decreases bars@.len() - i,
    {
        let b = &bars[i];
        proof {
            assert(bars@.take(i as int + 1).drop_last() =~= bars@.take(i as int));
            assert(bars@.take(i as int + 1).last() == *b);
        }
        let ts = parse_cst_date(b.day.as_str());
        let o = dec_parse(b.open.as_str());
        let h = dec_parse(b.high.as_str());
        let l = dec_parse(b.low.as_str());
        let c = dec_parse(b.close.as_str());
        match (ts, o, h, l, c) {
            (Some(ts), Some(o), Some(h), Some(l), Some(c)) => {
                let volume = match parse_u64(b.volume.as_str()) {
                    Some(v) => v,
                    None => 0,
                };
                let ghost before = out@;
                let bar = OHLCV { symbol: symbol.clone(), timestamp: ts, open: o, high: h, low: l, close: c, volume };
                out.push(bar);
                proof {
                    assert(ohlcv_rows(out@) =~= ohlcv_rows(before).push(
                        (ts as int, o@, h@, l@, c@, volume as int),
                    ));
                }
            },
            _ => {},
        }
        i = i + 1;
    }
    proof {
        assert(bars@.take(bars@.len() as int) =~= bars@);
        lemma_bars_read_rows(out@, bars@);
    }
    out
}

/// What `urlencoding::encode` gives for a text: every byte of its UTF-8
/// form percent-encoded except ASCII letters, digits and `-`, `_`, `.`, `~`.
pub uninterp spec fn url_encoded(s: Seq<char>) -> Seq<char>;

/// `urlencoding::encode`; the result is named.
#[verifier::external_body]
fn url_encode(s: &str) -> (r: String)
    ensures
        r@ == url_encoded(s@),
{
    urlencoding::encode(s).into_owned()
}

/// Sina Finance: the quote, suggestion and K-line servers.
#[derive(Debug)]
pub struct SinaFinanceProvider {
    pub base_url: String,
    pub suggest_base_url: String,
    pub kline_base_url: String,
}

/// The default K-line server.
pub open spec fn sina_kline_default() -> Seq<char> {
    "https://money.finance.sina.com.cn/quotes_service/api/json_v2.php/CN_MarketData.getKLineData"@
}

impl SinaFinanceProvider {
    /// The public servers.
    pub fn new() -> (r: SinaFinanceProvider)
        ensures
            r.base_url@ == "https://hq.sinajs.cn"@,
            r.suggest_base_url@ == "https://suggest3.sinajs.cn"@,
            r.kline_base_url@ == sina_kline_default(),
    {
        SinaFinanceProvider::with_base_url("https://hq.sinajs.cn".to_owned())
    }

    /// The quote server at `base_url`, the public others.
    pub fn with_base_url(base_url: String) -> (r: SinaFinanceProvider)
        ensures
            r.base_url == base_url,
            r.suggest_base_url@ == "https://suggest3.sinajs.cn"@,
            r.kline_base_url@ == sina_kline_default(),
    {
        SinaFinanceProvider {
            base_url,
            suggest_base_url: "https://suggest3.sinajs.cn".to_owned(),
            kline_base_url: "https://money.finance.sina.com.cn/quotes_service/api/json_v2.php/CN_MarketData.getKLineData".to_owned(),
        }
    }

    /// Another suggestion server.
    pub fn with_suggest_url(self, url: String) -> (r: SinaFinanceProvider)
        ensures
            r == (SinaFinanceProvider { suggest_base_url: url, ..self }),
    {
        SinaFinanceProvider { suggest_base_url: url, ..self }
    }

    /// Another K-line server.
    pub fn with_kline_url(self, url: String) -> (r: SinaFinanceProvider)
        ensures
            r == (SinaFinanceProvider { kline_base_url: url, ..self }),
    {
        SinaFinanceProvider { kline_base_url: url, ..self }
    }

    /// Sina serves A-shares only.
    pub fn supports(&self, market: &Market) -> (r: bool)
        ensures
            r == (*market == Market::AShare),
    {
        *market == Market::AShare
    }

    /// The address of the quote of `symbol`, or the refusal of its market.
    pub fn quote_url(&self, symbol: &Symbol) -> (r: Result<String, DataError>)
        ensures
            symbol.market != Market::AShare ==> (r matches Err(DataError::MarketNotSupported { market })
                && market@ == market_name_spec(symbol.market)),
            symbol.market == Market::AShare ==> (r matches Ok(url) && url@ == self.base_url@ + "/list="@
                + sina_ticker_spec(symbol.code@, symbol.market)),
    {
        if !self.supports(&symbol.market) {
            return Err(DataError::MarketNotSupported { market: symbol.market.display_name() });
        }
        let s = cat(self.base_url.as_str(), "/list=");
        Ok(cat(s.as_str(), symbol.sina_ticker().as_str()))
    }

    /// The address of the K-line bars of `symbol` over `period` (200 bars
    /// for minute periods, else 500), or the refusal of the market or the
    /// period.
    pub fn kline_url(&self, symbol: &Symbol, period: Period) -> (r: Result<String, DataError>)
        ensures
            symbol.market != Market::AShare ==> (r matches Err(DataError::MarketNotSupported { market })
                && market@ == market_name_spec(symbol.market)),
            symbol.market == Market::AShare ==> match sina_scale_spec(period) {
                None => r matches Err(DataError::MarketNotSupported { market }) && market@ == "period "@
                    + period_debug_spec(period) + " not supported by Sina K-line"@,
                Some(scale) => r matches Ok(url) && url@ == self.kline_base_url@ + "?symbol="@ + sina_ticker_spec(
                    symbol.code@,
                    symbol.market,
                ) + "&scale="@ + scale + "&ma=no&datalen="@ + digits(
                    if intraday(period) {
                        200nat
                    } else {
                        500nat
                    },
                ),
            },
    {
        if !self.supports(&symbol.market) {
            return Err(DataError::MarketNotSupported { market: symbol.market.display_name() });
        }
        let scale = match sina_kline_scale(period) {
            Some(s) => s,
            None => {
                let m = cat("period ", period_debug(period));
                return Err(DataError::MarketNotSupported { market: cat(m.as_str(), " not supported by Sina K-line") });
            },
        };
        let s = cat(self.kline_base_url.as_str(), "?symbol=");
        let s = cat(s.as_str(), symbol.sina_ticker().as_str());
        let s = cat(s.as_str(), "&scale=");
        let s = cat(s.as_str(), scale);
        let s = cat(s.as_str(), "&ma=no&datalen=");
        let n = from_chars(&u64_digits(sina_kline_datalen(period) as u64));
        Ok(cat(s.as_str(), n.as_str()))
    }

    /// The address of the suggestions for `query` (at most 8), or `None`
    /// for an empty query, which has no suggestions.
    pub fn suggest_url(&self, query: &str) -> (r: Option<String>)
        ensures
            query@.len() == 0 ==> r is None,
            query@.len() > 0 ==> (r matches Some(url) && url@ == self.suggest_base_url@ + "/suggest/type=&key="@
                + url_encoded(query@) + "&name=&market=&rn=8"@),
    {
        if query.is_empty() {
            return None;
        }
        let s = cat(self.suggest_base_url.as_str(), "/suggest/type=&key=");
        let s = cat(s.as_str(), url_encode(query).as_str());
        Some(cat(s.as_str(), "&name=&market=&rn=8"))
    }
}

} // verus!
