//! Bars as the JSON providers send them, their numbers already decimals,
//! turned into OHLCV bars: rows whose time or a price is missing or does
//! not read are skipped.

use vstd::prelude::*;
use crate::data::sina::{ohlcv_rows};
use crate::data::zhitu::{ZhituProvider, zhitu_timestamp_spec};
use crate::dates::{naive_date_seconds, naive_datetime_seconds, parse_naive_date, parse_naive_datetime};
use crate::decimal::Dec;
use crate::ohlcv::OHLCV;
use crate::symbol::Symbol;

verus! {

/// One bar of a provider's response: its time text and the four prices
/// (`None` where the field is missing or its number does not convert to a
/// decimal), and the volume (0 where missing).
#[derive(Debug)]
pub struct RawBar {
    pub time: Option<String>,
    pub open: Option<Dec>,
    pub high: Option<Dec>,
    pub low: Option<Dec>,
    pub close: Option<Dec>,
    pub volume: u64,
}

/// How a provider writes the time of a bar.
#[derive(Debug, Clone, Copy, PartialEq, Eq, Structural)]
pub enum TimeFormat {
    /// ZhituAPI: `YYYY-MM-DD HH:MM:SS`, else `YYYY-MM-DD`, in China
    /// Standard Time.
    ChinaTime,
    /// AKTools minute bars: `YYYY-MM-DD HH:MM:SS` in UTC.
    UtcDateTime,
    /// AKTools daily bars: `YYYY-MM-DD`, midnight UTC.
    UtcDate,
}

/// The seconds since the Unix epoch that a bar time stands for.
pub open spec fn bar_time_spec(t: Seq<char>, f: TimeFormat) -> Option<int> {
    match f {
        TimeFormat::ChinaTime => zhitu_timestamp_spec(t),
        TimeFormat::UtcDateTime => naive_datetime_seconds(t, "%Y-%m-%d %H:%M:%S"@),
        TimeFormat::UtcDate => naive_date_seconds(t, "%Y-%m-%d"@),
    }
}

/// The time, prices and volume of a bar, when its time reads and all four
/// prices are present.
pub open spec fn raw_row(b: RawBar, f: TimeFormat) -> Option<(int, (int, int), (int, int), (int, int), (int, int), int)> {
    match (b.time, b.open, b.high, b.low, b.close) {
        (Some(t), Some(o), Some(h), Some(l), Some(c)) => match bar_time_spec(t@, f) {
            Some(ts) => Some((ts, o@, h@, l@, c@, b.volume as int)),
            None => None,
        },
        _ => None,
    }
}

/// The rows of the bars that are kept, in order.
pub open spec fn raw_rows(bs: Seq<RawBar>, f: TimeFormat) -> Seq<(int, (int, int), (int, int), (int, int), (int, int), int)>
    decreases bs.len(),
{
    if bs.len() == 0 {
        Seq::empty()
    } else {
        let rest = raw_rows(bs.drop_last(), f);
        match raw_row(bs.last(), f) {
            Some(r) => rest.push(r),
            None => rest,
        }
    }
}

/// `row` holds the fields of `b`: its time read in format `f`, and its
/// open, high, low and close, each from its own field, and its volume.
pub open spec fn row_of_raw_bar(row: (int, (int, int), (int, int), (int, int), (int, int), int), b: RawBar, f: TimeFormat) -> bool {
    &&& b.time matches Some(t) && bar_time_spec(t@, f) == Some(row.0)
    &&& b.open matches Some(o) && o@ == row.1
    &&& b.high matches Some(h) && h@ == row.2
    &&& b.low matches Some(l) && l@ == row.3
    &&& b.close matches Some(c) && c@ == row.4
    &&& row.5 == b.volume as int
}

/// `row` holds the fields of one of the bars of `bs`.
pub open spec fn row_of_some_raw_bar(
    row: (int, (int, int), (int, int), (int, int), (int, int), int),
    bs: Seq<RawBar>,
    f: TimeFormat,
) -> bool {
    exists|j: int| 0 <= j < bs.len() && #[trigger] row_of_raw_bar(row, bs[j], f)
}

/// Law: every row kept from a provider's bars comes from one of them and
/// takes its time, open, high, low, close and volume from that bar's own
/// fields.
pub proof fn lemma_raw_rows_read_bars(bs: Seq<RawBar>, f: TimeFormat, i: int)
    requires
        0 <= i < raw_rows(bs, f).len(),
    ensures
        row_of_some_raw_bar(raw_rows(bs, f)[i], bs, f),
    decreases bs.len(),
{
    let rest = raw_rows(bs.drop_last(), f);
    if i < rest.len() {
        lemma_raw_rows_read_bars(bs.drop_last(), f, i);
        let j = choose|j: int| 0 <= j < bs.drop_last().len() && #[trigger] row_of_raw_bar(rest[i], bs.drop_last()[j], f);
        assert(bs.drop_last()[j] == bs[j]);
        assert(row_of_raw_bar(raw_rows(bs, f)[i], bs[j], f));
    } else {
        let j = bs.len() - 1;
        assert(bs[j] == bs.last());
        assert(row_of_raw_bar(raw_rows(bs, f)[i], bs[j], f));
    }
}

/// Reads a bar time.
fn read_time(t: &str, f: TimeFormat) -> (r: Option<i64>)
    ensures
        r matches Some(x) ==> bar_time_spec(t@, f) == Some(x as int),
        r is None ==> bar_time_spec(t@, f) is None,
{
    match f {
        TimeFormat::ChinaTime => ZhituProvider::parse_timestamp(t),
        TimeFormat::UtcDateTime => parse_naive_datetime(t, "%Y-%m-%d %H:%M:%S"),
        TimeFormat::UtcDate => parse_naive_date(t, "%Y-%m-%d"),
    }
}

/// The bars of `symbol` from a provider's rows, in order, skipping the rows
/// whose time does not read or that lack a price.
pub fn bars_from_raw(raw: &[RawBar], format: TimeFormat, symbol: &Symbol) -> (r: Vec<OHLCV>)
    ensures
        ohlcv_rows(r@) == raw_rows(raw@, format),
        forall|i: int| 0 <= i < r@.len() ==> (#[trigger] r@[i]).symbol == *symbol,
{
    let mut out: Vec<OHLCV> = Vec::new();
    let mut i: usize = 0;
    proof {
        assert(raw@.take(0) =~= Seq::<RawBar>::empty());
        assert(ohlcv_rows(out@) =~= Seq::<(int, (int, int), (int, int), (int, int), (int, int), int)>::empty());
    }
    while i < raw.len()
        invariant
            i <= raw@.len(),
            ohlcv_rows(out@) == raw_rows(raw@.take(i as int), format),
            forall|k: int| 0 <= k < out@.len() ==> (#[trigger] out@[k]).symbol == *symbol,
        decreases raw@.len() - i,
    {
        let b = &raw[i];
        proof {
            assert(raw@.take(i as int + 1).drop_last() =~= raw@.take(i as int));
            assert(raw@.take(i as int + 1).last() == *b);
        }
        match (&b.time, b.open, b.high, b.low, b.close) {
            (Some(t), Some(o), Some(h), Some(l), Some(c)) => match read_time(t.as_str(), format) {
                Some(ts) => {
                    let ghost before = out@;
                    let bar = OHLCV {
                        symbol: symbol.clone(),
                        timestamp: ts,
                        open: o,
                        high: h,
                        low: l,
                        close: c,
                        volume: b.volume,
                    };
                    out.push(bar);
                    proof {
                        assert(ohlcv_rows(out@) =~= ohlcv_rows(before).push(
                            (ts as int, o@, h@, l@, c@, b.volume as int),
                        ));
                    }
                },
                None => {},
            },
            _ => {},
        }
        i = i + 1;
    }
    proof {
        assert(raw@.take(raw@.len() as int) =~= raw@);
    }
    out
}

} // verus!
