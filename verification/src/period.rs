//! Chart periods and the parameters each data source uses for them.

use vstd::prelude::*;

verus! {

/// A bar period.
#[derive(Debug, Clone, Copy, PartialEq, Eq, Hash, Structural)]
pub enum Period {
    Min1,
    Min5,
    Min15,
    Min30,
    Min60,
    Day1,
    Week1,
    Month1,
    Month3,
    Month6,
    Year1,
    Year5,
}

/// Minute-level periods.
pub open spec fn intraday(p: Period) -> bool {
    p is Min1 || p is Min5 || p is Min15 || p is Min30 || p is Min60
}

/// Yahoo Finance `range` parameter.
pub open spec fn yahoo_range_spec(p: Period) -> Seq<char> {
    match p {
        Period::Min1 | Period::Min5 | Period::Min15 | Period::Min30 | Period::Min60 => "1d"@,
        Period::Day1 => "1d"@,
        Period::Week1 => "5d"@,
        Period::Month1 => "1mo"@,
        Period::Month3 => "3mo"@,
        Period::Month6 => "6mo"@,
        Period::Year1 => "1y"@,
        Period::Year5 => "5y"@,
    }
}

/// Yahoo Finance `interval` parameter.
pub open spec fn yahoo_interval_spec(p: Period) -> Seq<char> {
    match p {
        Period::Min1 => "1m"@,
        Period::Min5 => "5m"@,
        Period::Min15 => "15m"@,
        Period::Min30 => "30m"@,
        Period::Min60 => "60m"@,
        Period::Day1 => "5m"@,
        Period::Week1 => "1h"@,
        _ => "1d"@,
    }
}

/// AkShare `period` parameter.
pub open spec fn akshare_period_spec(p: Period) -> Seq<char> {
    match p {
        Period::Min1 => "1"@,
        Period::Min5 => "5"@,
        Period::Min15 => "15"@,
        Period::Min30 => "30"@,
        Period::Min60 => "60"@,
        Period::Day1 => "daily"@,
        Period::Week1 => "weekly"@,
        _ => "monthly"@,
    }
}

/// Whether a "load more history" request can reach further back.
pub open spec fn can_extend_spec(p: Period) -> bool {
    !intraday(p) && !(p is Day1 || p is Week1)
}

/// Yahoo Finance range for "load more history".
pub open spec fn extended_yahoo_range_spec(p: Period) -> Seq<char> {
    match p {
        Period::Month1 | Period::Month3 | Period::Month6 | Period::Year1 => "5y"@,
        Period::Year5 => "max"@,
        _ => yahoo_range_spec(p),
    }
}

/// Short label for display.
pub open spec fn label_spec(p: Period) -> Seq<char> {
    match p {
        Period::Min1 => "1分"@,
        Period::Min5 => "5分"@,
        Period::Min15 => "15分"@,
        Period::Min30 => "30分"@,
        Period::Min60 => "60分"@,
        Period::Day1 => "日线"@,
        Period::Week1 => "周线"@,
        Period::Month1 => "月线"@,
        Period::Month3 => "季线"@,
        Period::Month6 => "半年"@,
        Period::Year1 => "年线"@,
        Period::Year5 => "5年"@,
    }
}

/// ZhituAPI `level` parameter, for the periods it serves.
pub open spec fn zhitu_level_spec(p: Period) -> Option<Seq<char>> {
    match p {
        Period::Min5 => Some("5"@),
        Period::Min15 => Some("15"@),
        Period::Min30 => Some("30"@),
        Period::Min60 => Some("60"@),
        Period::Day1 => Some("d"@),
        Period::Week1 => Some("w"@),
        Period::Month1 => Some("m"@),
        Period::Year1 => Some("y"@),
        _ => None,
    }
}

/// The next longer period in the zoom-out chain, if any.
pub open spec fn next_longer_spec(p: Period) -> Option<Period> {
    match p {
        Period::Day1 => Some(Period::Week1),
        Period::Week1 => Some(Period::Month1),
        Period::Month1 => Some(Period::Month3),
        Period::Month3 => Some(Period::Month6),
        Period::Month6 => Some(Period::Year1),
        Period::Year1 => Some(Period::Year5),
        _ => None,
    }
}

/// The position of a period in the order from shortest to longest.
pub open spec fn period_rank(p: Period) -> int {
    match p {
        Period::Min1 => 0,
        Period::Min5 => 1,
        Period::Min15 => 2,
        Period::Min30 => 3,
        Period::Min60 => 4,
        Period::Day1 => 5,
        Period::Week1 => 6,
        Period::Month1 => 7,
        Period::Month3 => 8,
        Period::Month6 => 9,
        Period::Year1 => 10,
        Period::Year5 => 11,
    }
}

impl Period {
    /// Yahoo Finance range parameter.
    pub fn yahoo_range(&self) -> (r: &'static str)
        ensures
            r@ == yahoo_range_spec(*self),
    {
        match self {
            Period::Min1 | Period::Min5 | Period::Min15 | Period::Min30 | Period::Min60 => "1d",
            Period::Day1 => "1d",
            Period::Week1 => "5d",
            Period::Month1 => "1mo",
            Period::Month3 => "3mo",
            Period::Month6 => "6mo",
            Period::Year1 => "1y",
            Period::Year5 => "5y",
        }
    }

    /// Yahoo Finance interval parameter.
    pub fn yahoo_interval(&self) -> (r: &'static str)
        ensures
            r@ == yahoo_interval_spec(*self),
    {
        match self {
            Period::Min1 => "1m",
            Period::Min5 => "5m",
            Period::Min15 => "15m",
            Period::Min30 => "30m",
            Period::Min60 => "60m",
            Period::Day1 => "5m",
            Period::Week1 => "1h",
            _ => "1d",
        }
    }

    /// AkShare period string; periods longer than a week use "monthly".
    pub fn akshare_period(&self) -> (r: &'static str)
        ensures
            r@ == akshare_period_spec(*self),
    {
        match self {
            Period::Min1 => "1",
            Period::Min5 => "5",
            Period::Min15 => "15",
            Period::Min30 => "30",
            Period::Min60 => "60",
            Period::Day1 => "daily",
            Period::Week1 => "weekly",
            Period::Month1 | Period::Month3 | Period::Month6 | Period::Year1 | Period::Year5 => {
                "monthly"
            },
        }
    }

    /// True for minute-level periods.
    pub fn is_intraday(&self) -> (r: bool)
        ensures
            r == intraday(*self),
    {
        matches!(self, Period::Min1 | Period::Min5 | Period::Min15 | Period::Min30 | Period::Min60)
    }

    /// Yahoo Finance range for "load more history"; periods that cannot be
    /// extended keep their usual range.
    pub fn extended_yahoo_range(&self) -> (r: &'static str)
        ensures
            r@ == extended_yahoo_range_spec(*self),
            !can_extend_spec(*self) ==> r@ == yahoo_range_spec(*self),
    {
        match self {
            Period::Month1 | Period::Month3 | Period::Month6 | Period::Year1 => "5y",
            Period::Year5 => "max",
            _ => self.yahoo_range(),
        }
    }

    /// True if fetching more history is meaningful: monthly charts and longer.
    pub fn can_extend_history(&self) -> (r: bool)
        ensures
            r == can_extend_spec(*self),
    {
        !self.is_intraday() && !matches!(self, Period::Day1 | Period::Week1)
    }

    /// Short label for display.
    pub fn label(&self) -> (r: &'static str)
        ensures
            r@ == label_spec(*self),
    {
        match self {
            Period::Min1 => "1分",
            Period::Min5 => "5分",
            Period::Min15 => "15分",
            Period::Min30 => "30分",
            Period::Min60 => "60分",
            Period::Day1 => "日线",
            Period::Week1 => "周线",
            Period::Month1 => "月线",
            Period::Month3 => "季线",
            Period::Month6 => "半年",
            Period::Year1 => "年线",
            Period::Year5 => "5年",
        }
    }

    /// ZhituAPI level parameter; `None` for Min1, Month3, Month6 and Year5.
    pub fn zhitu_level(&self) -> (r: Option<&'static str>)
        ensures
            match (r, zhitu_level_spec(*self)) {
                (Some(a), Some(b)) => a@ == b,
                (None, None) => true,
                _ => false,
            },
    {
        match self {
            Period::Min5 => Some("5"),
            Period::Min15 => Some("15"),
            Period::Min30 => Some("30"),
            Period::Min60 => Some("60"),
            Period::Day1 => Some("d"),
            Period::Week1 => Some("w"),
            Period::Month1 => Some("m"),
            Period::Year1 => Some("y"),
            _ => None,
        }
    }
}

/// ZhituAPI adjust type: forward-adjusted ("fr").
pub fn zhitu_adjust() -> (r: &'static str)
    ensures
        r@ == "fr"@,
{
    "fr"
}

/// The next longer period, or `None` for minute periods and the longest one.
pub fn next_longer_period(p: &Period) -> (r: Option<Period>)
    ensures
        r == next_longer_spec(*p),
        r matches Some(q) ==> period_rank(q) == period_rank(*p) + 1 && !intraday(q),
{
    match p {
        Period::Min1 | Period::Min5 | Period::Min15 | Period::Min30 | Period::Min60 => None,
        Period::Day1 => Some(Period::Week1),
        Period::Week1 => Some(Period::Month1),
        Period::Month1 => Some(Period::Month3),
        Period::Month3 => Some(Period::Month6),
        Period::Month6 => Some(Period::Year1),
        Period::Year1 => Some(Period::Year5),
        Period::Year5 => None,
    }
}

/// Axis code of a period on the chart title ("1m", "1D", "5Y", ...).
pub open spec fn axis_code_spec(p: Period) -> Seq<char> {
    match p {
        Period::Min1 => "1m"@,
        Period::Min5 => "5m"@,
        Period::Min15 => "15m"@,
        Period::Min30 => "30m"@,
        Period::Min60 => "60m"@,
        Period::Day1 => "1D"@,
        Period::Week1 => "5D"@,
        Period::Month1 => "1M"@,
        Period::Month3 => "3M"@,
        Period::Month6 => "6M"@,
        Period::Year1 => "1Y"@,
        Period::Year5 => "5Y"@,
    }
}

/// Axis code of a period on the chart title.
pub fn period_label(p: &Period) -> (r: &'static str)
    ensures
        r@ == axis_code_spec(*p),
{
    match p {
        Period::Min1 => "1m",
        Period::Min5 => "5m",
        Period::Min15 => "15m",
        Period::Min30 => "30m",
        Period::Min60 => "60m",
        Period::Day1 => "1D",
        Period::Week1 => "5D",
        Period::Month1 => "1M",
        Period::Month3 => "3M",
        Period::Month6 => "6M",
        Period::Year1 => "1Y",
        Period::Year5 => "5Y",
    }
}

/// Sina K-line `scale` (minutes per bar), for the periods Sina serves.
pub open spec fn sina_scale_spec(p: Period) -> Option<Seq<char>> {
    match p {
        Period::Min1 => Some("1"@),
        Period::Min5 => Some("5"@),
        Period::Min15 => Some("15"@),
        Period::Min30 => Some("30"@),
        Period::Min60 => Some("60"@),
        Period::Day1 => Some("240"@),
        Period::Week1 => Some("1200"@),
        Period::Month1 => Some("7200"@),
        _ => None,
    }
}

/// Sina K-line `scale` parameter.
pub fn sina_kline_scale(period: Period) -> (r: Option<&'static str>)
    ensures
        match (r, sina_scale_spec(period)) {
            (Some(a), Some(b)) => a@ == b,
            (None, None) => true,
            _ => false,
        },
{
    match period {
        Period::Min1 => Some("1"),
        Period::Min5 => Some("5"),
        Period::Min15 => Some("15"),
        Period::Min30 => Some("30"),
        Period::Min60 => Some("60"),
        Period::Day1 => Some("240"),
        Period::Week1 => Some("1200"),
        Period::Month1 => Some("7200"),
        _ => None,
    }
}

/// Number of bars to request from Sina: 200 for minute periods, else 500.
pub fn sina_kline_datalen(period: Period) -> (r: u32)
    ensures
        r == (if intraday(period) { 200u32 } else { 500u32 }),
{
    match period {
        Period::Min1 | Period::Min5 | Period::Min15 | Period::Min30 | Period::Min60 => 200,
        _ => 500,
    }
}

} // verus!
