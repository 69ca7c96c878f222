//! What a strategy sees on each bar and what it answers.

use vstd::prelude::*;
use crate::decimal::Dec;
use crate::ohlcv::OHLCV;

verus! {

/// Context passed to a strategy on each bar.
pub struct BarContext<'a> {
    /// The current bar.
    pub bar: &'a OHLCV,
    /// Shares held (0 = flat).
    pub position: i64,
    /// Available cash.
    pub cash: Dec,
    /// All bars from the start of the run up to and including `bar`.
    pub history: &'a [OHLCV],
}

/// A context as the engine hands it out: a nonempty history ending with the
/// current bar.
pub open spec fn context_ok(ctx: &BarContext) -> bool {
    &&& ctx.history@.len() > 0
    &&& *ctx.bar == ctx.history@.last()
}

impl<'a> BarContext<'a> {
    /// The context for the last bar of `history`.
    pub fn new(history: &'a [OHLCV], position: i64, cash: Dec) -> (r: Self)
        requires
            history@.len() > 0,
        ensures
            *r.bar == history@.last(),
            r.history@ == history@,
            r.position == position,
            r.cash == cash,
    {
        let n = history.len();
        BarContext { bar: &history[n - 1], history, position, cash }
    }
}

/// What a strategy wants to do after seeing a bar.
#[derive(Debug, Clone, Copy, PartialEq, Eq, Structural)]
pub enum Signal {
    /// Buy with all available cash at this bar's fill price.
    BuyAll,
    /// Sell the entire position at this bar's fill price.
    SellAll,
    /// Do nothing.
    Hold,
}

/// A trading strategy.
///
/// A strategy that keeps the contract below is a deterministic function of
/// what it is shown: the signal for a bar, and the strategy's state after
/// it, depend only on its state before, the history up to and including the
/// bar, the position and the cash. The spec functions below name them. An
/// implementation that Verus checks sets `obeys_spec` and says what they
/// are; for any other implementation `obeys_spec` stays false, the other
/// spec functions are left unspecified, and nothing is claimed of it. Since
/// the contract compares states, a strategy is a sized type: the engine
/// takes it as a type parameter rather than as a trait object.
pub trait Strategy: Sized {
    /// Whether the implementation keeps the contract written with the spec
    /// functions below.
    open spec fn obeys_spec() -> bool {
        false
    }

    /// The signal given in this state for `history` (ending with the current
    /// bar), with `position` shares held and `cash` available.
    open spec fn signal_spec(&self, history: Seq<OHLCV>, position: int, cash: (int, int)) -> Signal {
        arbitrary()
    }

    /// The state after giving that signal.
    open spec fn next_spec(&self, history: Seq<OHLCV>, position: int, cash: (int, int)) -> Self {
        arbitrary()
    }

    /// The state after a reset.
    open spec fn reset_spec(&self) -> Self {
        arbitrary()
    }

    /// The histories for which this state can compute its signal without
    /// leaving the range of its arithmetic.
    open spec fn admits(&self, history: Seq<OHLCV>) -> bool {
        arbitrary()
    }

    /// Display name.
    fn name(&self) -> String;

    /// The signal for the current bar.
    fn on_bar(&mut self, ctx: &BarContext) -> (r: Signal)
        requires
            context_ok(ctx),
            Self::obeys_spec() ==> old(self).admits(ctx.history@),
        ensures
            Self::obeys_spec() ==> r == old(self).signal_spec(ctx.history@, ctx.position as int, ctx.cash@),
            Self::obeys_spec() ==> *final(self) == old(self).next_spec(
                ctx.history@,
                ctx.position as int,
                ctx.cash@,
            ),
    ;

    /// Called before each run so that the same instance can be reused.
    fn reset(&mut self)
        ensures
            Self::obeys_spec() ==> *final(self) == old(self).reset_spec(),
    ;
}

} // verus!
