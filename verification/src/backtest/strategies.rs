//! The built-in strategies.

use vstd::prelude::*;
use crate::backtest::strategy::{BarContext, Signal, Strategy};
use crate::decimal::{Dec, dec_le, dec_lt, int_model, less_value, same_value};
use crate::indicator::{sma, sma_at, opt_view, windows_fit};
use crate::ohlcv::OHLCV;

verus! {

/// Moving-average crossover: buys when the fast average crosses the slow
/// one from below, sells when it crosses from above.
pub struct MaCrossStrategy {
    pub fast: usize,
    pub slow: usize,
}

/// The crossover rule on the previous and current averages: a golden cross
/// (fast was below slow and is now at or above it) buys when flat; a death
/// cross (fast was at or above slow and is now below it) sells when holding.
pub open spec fn cross_signal(
    pf: (int, int),
    ps: (int, int),
    cf: (int, int),
    cs: (int, int),
    position: int,
) -> Signal {
    if less_value(pf, ps) && !less_value(cf, cs) && position == 0 {
        Signal::BuyAll
    } else if !less_value(pf, ps) && less_value(cf, cs) && position > 0 {
        Signal::SellAll
    } else {
        Signal::Hold
    }
}

/// The crossover signal for a history: `Hold` before `slow + 1` bars or
/// when an average is missing, else the crossover rule on the averages at
/// the last two bars.
pub open spec fn ma_cross_spec(fast: nat, slow: nat, h: Seq<OHLCV>, position: int) -> Signal {
    if h.len() < slow + 1 {
        Signal::Hold
    } else {
        let n = h.len() as int;
        match (sma_at(h, fast, n - 2), sma_at(h, slow, n - 2), sma_at(h, fast, n - 1), sma_at(h, slow, n - 1)) {
            (Some(pf), Some(ps), Some(cf), Some(cs)) => cross_signal(pf, ps, cf, cs, position),
            _ => Signal::Hold,
        }
    }
}

/// Law: the crossover rule buys only when flat on a golden cross (the fast
/// average was below the slow one and now is not), sells only when holding
/// on a death cross (the fast average was not below the slow one and now
/// is), and holds otherwise.
pub proof fn lemma_cross_rule(pf: (int, int), ps: (int, int), cf: (int, int), cs: (int, int), position: int)
    ensures
        cross_signal(pf, ps, cf, cs, position) == Signal::BuyAll <==> (less_value(pf, ps) && !less_value(cf, cs)
            && position == 0),
        cross_signal(pf, ps, cf, cs, position) == Signal::SellAll <==> (!less_value(pf, ps) && less_value(cf, cs)
            && position > 0),
{
}

impl MaCrossStrategy {
    /// A crossover of the `fast`- and `slow`-bar averages.
    pub fn new(fast: usize, slow: usize) -> (r: MaCrossStrategy)
        ensures
            r.fast == fast,
            r.slow == slow,
    {
        MaCrossStrategy { fast, slow }
    }
}

impl Strategy for MaCrossStrategy {
    open spec fn obeys_spec() -> bool {
        true
    }

    open spec fn signal_spec(&self, history: Seq<OHLCV>, position: int, cash: (int, int)) -> Signal {
        ma_cross_spec(self.fast as nat, self.slow as nat, history, position)
    }

    /// The crossover keeps no state between bars.
    open spec fn next_spec(&self, history: Seq<OHLCV>, position: int, cash: (int, int)) -> Self {
        *self
    }

    open spec fn reset_spec(&self) -> Self {
        *self
    }

    /// Both averages are computed over the whole history once it is long
    /// enough to compare two bars.
    open spec fn admits(&self, history: Seq<OHLCV>) -> bool {
        history.len() <= self.slow || history.len() < 2 || (windows_fit(history, self.fast as nat) && windows_fit(
            history,
            self.slow as nat,
        ))
    }

    fn name(&self) -> (r: String)
        ensures
            r@ == "双均线穿越"@,
    {
        "双均线穿越".to_owned()
    }

    fn on_bar(&mut self, ctx: &BarContext) -> (r: Signal)
        ensures
            r == ma_cross_spec(old(self).fast as nat, old(self).slow as nat, ctx.history@, ctx.position as int),
            *final(self) == *old(self),
    {
        let history = ctx.history;
        let n = history.len();
        if n <= self.slow || n < 2 {
            return Signal::Hold;
        }
        let fast_vals = sma(history, self.fast);
        let slow_vals = sma(history, self.slow);
        proof {
            assert(opt_view(fast_vals@[n - 2]) == sma_at(history@, self.fast as nat, n - 2));
            assert(opt_view(slow_vals@[n - 2]) == sma_at(history@, self.slow as nat, n - 2));
            assert(opt_view(fast_vals@[n - 1]) == sma_at(history@, self.fast as nat, n - 1));
            assert(opt_view(slow_vals@[n - 1]) == sma_at(history@, self.slow as nat, n - 1));
        }
        match (fast_vals[n - 2], slow_vals[n - 2], fast_vals[n - 1], slow_vals[n - 1]) {
            (Some(pf), Some(ps), Some(cf), Some(cs)) => {
                let prev_below = dec_lt(pf, ps);
                let now_below = dec_lt(cf, cs);
                if prev_below && !now_below && ctx.position == 0 {
                    Signal::BuyAll
                } else if !prev_below && now_below && ctx.position > 0 {
                    Signal::SellAll
                } else {
                    Signal::Hold
                }
            },
            _ => Signal::Hold,
        }
    }

    /// Nothing to reset.
    fn reset(&mut self) {
    }
}

/// RSI mean reversion: buys when the RSI falls below the oversold level,
/// sells when it rises above the overbought level.
pub struct RsiStrategy {
    period: usize,
    oversold: u32,
    overbought: u32,
}

/// The RSI rule: `Hold` until more than `period` bars or without a current
/// RSI; below `oversold` buys when flat, above `overbought` sells when
/// holding.
pub open spec fn rsi_signal_spec(
    period: int,
    oversold: int,
    overbought: int,
    history_len: int,
    current: Option<(int, int)>,
    position: int,
) -> Signal {
    if history_len <= period {
        Signal::Hold
    } else {
        match current {
            None => Signal::Hold,
            Some(v) => if less_value(v, int_model(oversold)) && position == 0 {
                Signal::BuyAll
            } else if less_value(int_model(overbought), v) && position > 0 {
                Signal::SellAll
            } else {
                Signal::Hold
            },
        }
    }
}

/// Law: the RSI rule buys only when flat, past the warm-up, with the RSI
/// strictly below the oversold level; it sells only when holding, past the
/// warm-up, with the RSI strictly above the overbought level; and while the
/// RSI lies between the two levels (both included) it holds.
pub proof fn lemma_rsi_rule(
    period: int,
    oversold: int,
    overbought: int,
    history_len: int,
    current: Option<(int, int)>,
    position: int,
)
    ensures
        rsi_signal_spec(period, oversold, overbought, history_len, current, position) == Signal::BuyAll ==> (
        history_len > period && current is Some && less_value(current->0, int_model(oversold)) && position == 0),
        rsi_signal_spec(period, oversold, overbought, history_len, current, position) == Signal::SellAll ==> (
        history_len > period && current is Some && less_value(int_model(overbought), current->0) && position
            > 0),
        current is Some && !less_value(current->0, int_model(oversold)) && !less_value(
            int_model(overbought),
            current->0,
        ) ==> rsi_signal_spec(period, oversold, overbought, history_len, current, position) == Signal::Hold,
{
}

impl RsiStrategy {
    /// RSI over `period` bars with the given thresholds; the period must be
    /// positive and `oversold` below `overbought`.
    pub fn new(period: usize, oversold: u32, overbought: u32) -> (r: RsiStrategy)
        requires
            period > 0,
            oversold < overbought,
        ensures
            r.period() == period,
            r.oversold() == oversold,
            r.overbought() == overbought,
    {
        RsiStrategy { period, oversold, overbought }
    }

    /// The RSI period.
    pub closed spec fn period(&self) -> usize {
        self.period
    }

    /// The oversold level.
    pub closed spec fn oversold(&self) -> u32 {
        self.oversold
    }

    /// The overbought level.
    pub closed spec fn overbought(&self) -> u32 {
        self.overbought
    }

    /// The RSI period.
    pub fn rsi_period(&self) -> (r: usize)
        ensures
            r == self.period(),
    {
        self.period
    }

    /// The signal for a history of `history_len` bars whose latest RSI value
    /// is `current` (`None` when not yet defined).
    pub fn signal_for(&self, history_len: usize, current: Option<Dec>, position: i64) -> (r: Signal)
        ensures
            r == rsi_signal_spec(
                self.period() as int,
                self.oversold() as int,
                self.overbought() as int,
                history_len as int,
                opt_view(current),
                position as int,
            ),
            r == Signal::SellAll ==> (current is Some && less_value(int_model(self.overbought() as int), current->0@)
                && position > 0),
            r == Signal::BuyAll ==> (current is Some && less_value(current->0@, int_model(self.oversold() as int))
                && position == 0),
    {
        proof {
            lemma_rsi_rule(
                self.period() as int,
                self.oversold() as int,
                self.overbought() as int,
                history_len as int,
                opt_view(current),
                position as int,
            );
        }
        if history_len <= self.period {
            return Signal::Hold;
        }
        let v = match current {
            Some(v) => v,
            None => {
                return Signal::Hold;
            },
        };
        let os = Dec::from_u64(self.oversold as u64);
        let ob = Dec::from_u64(self.overbought as u64);
        if dec_lt(v, os) && position == 0 {
            Signal::BuyAll
        } else if dec_lt(ob, v) && position > 0 {
            Signal::SellAll
        } else {
            Signal::Hold
        }
    }
}

/// The Bollinger-band rule: `Hold` before `period` bars (or for a period
/// below 2); at or under the lower band buys when flat, at or over the
/// upper band sells when holding.
pub open spec fn band_signal_spec(
    history_len: int,
    period: int,
    close: (int, int),
    lower: (int, int),
    upper: (int, int),
    position: int,
) -> Signal {
    if history_len < period || period < 2 {
        Signal::Hold
    } else if (less_value(close, lower) || same_value(close, lower)) && position == 0 {
        Signal::BuyAll
    } else if (less_value(upper, close) || same_value(upper, close)) && position > 0 {
        Signal::SellAll
    } else {
        Signal::Hold
    }
}

/// Law: the band rule buys only when flat with the close at or under the
/// lower band, sells only when holding with the close at or over the upper
/// band, and holds while the close lies strictly between the bands.
pub proof fn lemma_band_rule(
    history_len: int,
    period: int,
    close: (int, int),
    lower: (int, int),
    upper: (int, int),
    position: int,
)
    ensures
        band_signal_spec(history_len, period, close, lower, upper, position) == Signal::BuyAll ==> (
        history_len >= period && period >= 2 && (less_value(close, lower) || same_value(close, lower))
            && position == 0),
        band_signal_spec(history_len, period, close, lower, upper, position) == Signal::SellAll ==> (
        history_len >= period && period >= 2 && (less_value(upper, close) || same_value(upper, close))
            && position > 0),
        less_value(lower, close) && less_value(close, upper) ==> band_signal_spec(
            history_len,
            period,
            close,
            lower,
            upper,
            position,
        ) == Signal::Hold,
{
}

/// The Bollinger-band signal for the latest close of a history of
/// `history_len` bars, given the bands computed over the last `period`
/// closes.
pub fn band_signal(history_len: usize, period: usize, close: Dec, lower: Dec, upper: Dec, position: i64) -> (r: Signal)
    ensures
        r == band_signal_spec(history_len as int, period as int, close@, lower@, upper@, position as int),
{
    if history_len < period || period < 2 {
        Signal::Hold
    } else if dec_le(close, lower) && position == 0 {
        Signal::BuyAll
    } else if dec_le(upper, close) && position > 0 {
        Signal::SellAll
    } else {
        Signal::Hold
    }
}

/// The built-in strategies with their parameters.
#[derive(Clone, Copy, Debug, PartialEq, Eq, Structural)]
pub enum BuiltinStrategy {
    MaCross { fast: usize, slow: usize },
    Rsi { period: usize },
    Bollinger { period: usize },
}

/// Display name of a built-in strategy.
pub open spec fn builtin_name_spec(s: BuiltinStrategy) -> Seq<char> {
    match s {
        BuiltinStrategy::MaCross { .. } => "双均线穿越 (MA5×MA20)"@,
        BuiltinStrategy::Rsi { .. } => "RSI 均值回归 (14/30/70)"@,
        BuiltinStrategy::Bollinger { .. } => "布林带 (20, 2σ)"@,
    }
}

impl BuiltinStrategy {
    /// The three built-in strategies in menu order: MA 5×20 crossover,
    /// RSI 14 and Bollinger 20.
    pub fn all() -> (r: Vec<BuiltinStrategy>)
        ensures
            r@ == seq![
                BuiltinStrategy::MaCross { fast: 5, slow: 20 },
                BuiltinStrategy::Rsi { period: 14 },
                BuiltinStrategy::Bollinger { period: 20 },
            ],
    {
        vec![
            BuiltinStrategy::MaCross { fast: 5, slow: 20 },
            BuiltinStrategy::Rsi { period: 14 },
            BuiltinStrategy::Bollinger { period: 20 },
        ]
    }

    /// Display name.
    pub fn name(&self) -> (r: &'static str)
        ensures
            r@ == builtin_name_spec(*self),
    {
        match self {
            BuiltinStrategy::MaCross { .. } => "双均线穿越 (MA5×MA20)",
            BuiltinStrategy::Rsi { .. } => "RSI 均值回归 (14/30/70)",
            BuiltinStrategy::Bollinger { .. } => "布林带 (20, 2σ)",
        }
    }
}

} // verus!
