//! The backtest engine: replays daily bars through a strategy.

use vstd::prelude::*;
use crate::backtest::portfolio::{
    BuyOutcome, BuyPlan, Portfolio, SellOutcome, buy_outcome, buy_plan, sell_outcome, total_value_spec,
};
use crate::backtest::result::{
    BacktestResult, ResultModel, Trade, TradeAction, TradeModel, calculate_spec, empty_model,
    result_model, trade_model, trade_models, views,
};
use crate::backtest::strategy::{BarContext, Signal, Strategy, context_ok};
use crate::decimal::{
    Dec, Overflow, dec_checked_add, dec_checked_div, dec_checked_mul, dec_checked_sub,
    decimal_checked_difference, decimal_checked_product, decimal_checked_quotient,
    decimal_checked_sum, decimal_difference, decimal_product, decimal_quotient, decimal_sum, int_model,
    lemma_dec_scale, or_overflow, zero_model, times_exact,
};
pub use crate::decimal::{at28, difference_exact, scale_ok, sum_exact};
use crate::dates::utc_now;
use crate::ohlcv::OHLCV;

verus! {

broadcast use lemma_dec_scale;

/// Settings of a backtest run. Dates are days counted from 1970-01-01.
#[derive(Clone, Copy, Debug)]
pub struct BacktestConfig {
    pub initial_cash: Dec,
    pub commission_bps: Dec,
    pub slippage_bps: Dec,
    pub start_date: i64,
    pub end_date: i64,
}

impl BacktestConfig {
    /// The default settings for a run ending on `today`: 100 000 of cash,
    /// 5 bps commission, 3 bps slippage, and the year up to `today`.
    pub fn ending_on(today: i64) -> (r: BacktestConfig)
        requires
            today >= i64::MIN + 365,
        ensures
            r.initial_cash@ == int_model(100000),
            r.commission_bps@ == int_model(5),
            r.slippage_bps@ == int_model(3),
            r.start_date == today - 365,
            r.end_date == today,
    {
        BacktestConfig {
            initial_cash: Dec::from_i64(100000),
            commission_bps: Dec::from_i64(5),
            slippage_bps: Dec::from_i64(3),
            start_date: today - 365,
            end_date: today,
        }
    }
}

/// The day on which a default run ends: the UTC day of the clock reading,
/// or 1970-01-01 where the clock cannot be read as a `chrono` date-time.
pub open spec fn default_end_day(now: Option<i64>) -> int {
    match now {
        Some(t) => day_spec(t as int),
        None => 0,
    }
}

impl Default for BacktestConfig {
    /// The settings of [`BacktestConfig::ending_on`] for today's UTC date.
    /// The system time zone is not consulted, since looking it up can fail
    /// on the machine's zone data; where the clock reads before 1970 or past
    /// `chrono`'s range the run ends on 1970-01-01.
    fn default() -> (r: BacktestConfig)
        ensures
            r.initial_cash@ == int_model(100000),
            r.commission_bps@ == int_model(5),
            r.slippage_bps@ == int_model(3),
            r.end_date - r.start_date == 365,
            0 <= r.end_date <= 95026236,
    {
        let today = match utc_now() {
            Some(t) => day_of_timestamp(t),
            None => 0,
        };
        proof {
            assert(today <= 95026236);
        }
        BacktestConfig::ending_on(today)
    }
}

/// The UTC day of a Unix timestamp, in days from 1970-01-01.
pub open spec fn day_spec(ts: int) -> int {
    ts / 86400
}

/// The UTC day (days from 1970-01-01) of a Unix timestamp in seconds.
pub fn day_of_timestamp(ts: i64) -> (d: i64)
    ensures
        d == day_spec(ts as int),
{
    if ts >= 0 {
        ts / 86400
    } else {
        let a: i64 = -(ts + 1);
        let q: i64 = a / 86400;
        proof {
            let t = ts as int;
            let ai = a as int;
            let qi = q as int;
            assert(t / 86400 == -qi - 1) by (nonlinear_arith)
                requires
                    ai == -(t + 1),
                    ai >= 0,
                    qi == ai / 86400,
            {
                let r = ai % 86400;
                assert(ai == 86400 * qi + r);
                assert(t == 86400 * (-qi - 1) + (86399 - r));
            }
        }
        -q - 1
    }
}

/// The bars of `s` whose UTC day lies in `[start, end]`, in order.
pub open spec fn window_bars(s: Seq<OHLCV>, start: int, end: int) -> Seq<OHLCV>
    decreases s.len(),
{
    if s.len() == 0 {
        Seq::empty()
    } else {
        let w = window_bars(s.drop_last(), start, end);
        let d = day_spec(s.last().timestamp as int);
        if start <= d <= end {
            w.push(s.last())
        } else {
            w
        }
    }
}

/// The bookkeeping of a run as plain values.
pub struct RunModel {
    pub cash: (int, int),
    pub position: int,
    pub basis: (int, int),
    pub trades: Seq<TradeModel>,
    pub equity: Seq<(int, int)>,
}

/// The plain values of the run's bookkeeping.
pub open spec fn run_model(p: Portfolio, trades: Seq<Trade>, equity: Seq<Dec>) -> RunModel {
    RunModel {
        cash: p.cash@,
        position: p.position as int,
        basis: p.cost_basis@,
        trades: trade_models(trades),
        equity: views(equity),
    }
}

/// All cash, nothing traded yet.
pub open spec fn start_model(cfg: BacktestConfig) -> RunModel {
    RunModel {
        cash: cfg.initial_cash@,
        position: 0,
        basis: zero_model(),
        trades: Seq::empty(),
        equity: Seq::empty(),
    }
}

/// Appends the equity after a bar: cash plus the position at the close.
pub open spec fn mark_to_close(st: Option<RunModel>, close: (int, int)) -> Option<RunModel> {
    match st {
        None => None,
        Some(a) => match total_value_spec(a.cash, a.position, close) {
            None => None,
            Some(v) => Some(RunModel { equity: a.equity.push(v), ..a }),
        },
    }
}

/// Acting on a signal at the given fill prices: a buy with all cash at
/// `buy_fill`, a sale of the whole position at `sell_fill`, each recorded as
/// a trade dated `day` when it happens, or nothing.
pub open spec fn act_spec(
    cfg: BacktestConfig,
    st: RunModel,
    day: int,
    buy_fill: (int, int),
    sell_fill: (int, int),
    sig: Signal,
) -> Option<RunModel> {
    match sig {
        Signal::BuyAll => match buy_outcome(st.cash, st.position, st.basis, buy_fill, cfg.commission_bps@) {
            BuyOutcome::Overflow => None,
            BuyOutcome::NoTrade => Some(st),
            BuyOutcome::Bought { shares, cash, cost_basis } => match decimal_checked_product(buy_fill, int_model(shares)) {
                None => None,
                Some(amount) => Some(
                    RunModel {
                        cash,
                        position: shares,
                        basis: cost_basis,
                        trades: st.trades.push(
                            TradeModel {
                                date: day,
                                action: TradeAction::Buy,
                                price: buy_fill,
                                quantity: shares,
                                amount,
                                pnl: None,
                            },
                        ),
                        equity: st.equity,
                    },
                ),
            },
        },
        Signal::SellAll => match sell_outcome(st.cash, st.position, st.basis, sell_fill, cfg.commission_bps@) {
            SellOutcome::Overflow => None,
            SellOutcome::NoTrade => Some(st),
            SellOutcome::Sold { shares, net, pnl, cash } => match decimal_checked_product(sell_fill, int_model(shares)) {
                None => None,
                Some(amount) => Some(
                    RunModel {
                        cash,
                        position: 0,
                        basis: zero_model(),
                        trades: st.trades.push(
                            TradeModel {
                                date: day,
                                action: TradeAction::Sell,
                                price: sell_fill,
                                quantity: shares,
                                amount,
                                pnl: Some(pnl),
                            },
                        ),
                        equity: st.equity,
                    },
                ),
            },
        },
        Signal::Hold => Some(st),
    }
}

/// The fill prices for a bar closing at `close`: the close moved by the
/// slippage (`close * (1 ± slippage / 10000)`), up for buys and down for
/// sells; `None` where a decimal operation overflows.
pub open spec fn fill_prices(cfg: BacktestConfig, close: (int, int)) -> Option<((int, int), (int, int))> {
    match decimal_checked_quotient(cfg.slippage_bps@, int_model(10000)) {
        None => None,
        Some(slip) => match decimal_checked_sum(int_model(1), slip) {
            None => None,
            Some(up) => match decimal_checked_product(close, up) {
                None => None,
                Some(buy_fill) => match decimal_checked_difference(int_model(1), slip) {
                    None => None,
                    Some(down) => match decimal_checked_product(close, down) {
                        None => None,
                        Some(sell_fill) => Some((buy_fill, sell_fill)),
                    },
                },
            },
        },
    }
}

/// One bar of a run: the signal is acted on at the bar's fill prices, and
/// the equity at the close is appended.
pub open spec fn step_spec(cfg: BacktestConfig, st: Option<RunModel>, bar: OHLCV, sig: Signal) -> Option<RunModel> {
    match st {
        None => None,
        Some(s) => match fill_prices(cfg, bar.close@) {
            None => None,
            Some((buy_fill, sell_fill)) => mark_to_close(
                act_spec(cfg, s, day_spec(bar.timestamp as int), buy_fill, sell_fill, sig),
                bar.close@,
            ),
        },
    }
}

/// The bookkeeping after the bars of `bars`, each met with the signal at
/// the same index of `sigs`.
pub open spec fn replay_fold(cfg: BacktestConfig, bars: Seq<OHLCV>, sigs: Seq<Signal>) -> Option<RunModel>
    decreases bars.len(),
{
    if bars.len() == 0 {
        Some(start_model(cfg))
    } else {
        step_spec(cfg, replay_fold(cfg, bars.drop_last(), sigs.drop_last()), bars.last(), sigs.last())
    }
}

/// The figures of a run over `bars` with signals `sigs`: those of an empty
/// run when there are no bars, else those computed from its trades and
/// equity curve. `None` where a decimal operation overflows.
pub open spec fn run_spec(cfg: BacktestConfig, bars: Seq<OHLCV>, sigs: Seq<Signal>) -> Option<ResultModel> {
    if bars.len() == 0 {
        Some(empty_model(cfg.initial_cash@))
    } else {
        match replay_fold(cfg, bars, sigs) {
            None => None,
            Some(m) => calculate_spec(cfg.initial_cash@, m.trades, m.equity),
        }
    }
}

/// `r` is what a run over `bars` with signals `sigs` returns.
pub open spec fn run_outcome(
    cfg: BacktestConfig,
    bars: Seq<OHLCV>,
    sigs: Seq<Signal>,
    r: Result<BacktestResult, Overflow>,
) -> bool {
    match run_spec(cfg, bars, sigs) {
        None => r is Err,
        Some(m) => r matches Ok(res) && result_model(res) == m && res.annualized_return@ == zero_model()
            && res.sharpe_ratio@ == zero_model(),
    }
}

/// Trades alternate, starting with a buy; buys carry no profit figure and
/// sells carry one.
pub open spec fn trades_alternate(t: Seq<TradeModel>) -> bool {
    forall|i: int|
        0 <= i < t.len() ==> if i % 2 == 0 {
            #[trigger] t[i].action == TradeAction::Buy && t[i].pnl is None
        } else {
            t[i].action == TradeAction::Sell && t[i].pnl is Some
        }
}

/// The bookkeeping invariant of a run: the position is never negative,
/// trades alternate, and shares are held exactly when the last trade was
/// a buy.
pub open spec fn run_ok(m: RunModel) -> bool {
    &&& m.position >= 0
    &&& trades_alternate(m.trades)
    &&& (m.position > 0 <==> m.trades.len() % 2 == 1)
}

/// One bar keeps the bookkeeping invariant.
pub proof fn lemma_step_keeps_run_ok(cfg: BacktestConfig, st: RunModel, bar: OHLCV, sig: Signal)
    requires
        run_ok(st),
    ensures
        step_spec(cfg, Some(st), bar, sig) matches Some(m) ==> run_ok(m),
{
    let n = st.trades.len();
    if let Some((buy_fill, sell_fill)) = fill_prices(cfg, bar.close@) {
        let a = act_spec(cfg, st, day_spec(bar.timestamp as int), buy_fill, sell_fill, sig);
        if let Some(m) = a {
            assert(run_ok(m)) by {
                if m.trades.len() == n + 1 {
                    assert forall|i: int| 0 <= i < m.trades.len() implies
                        (if i % 2 == 0 {
                            #[trigger] m.trades[i].action == TradeAction::Buy && m.trades[i].pnl is None
                        } else {
                            m.trades[i].action == TradeAction::Sell && m.trades[i].pnl is Some
                        }) by {
                        if i < n {
                            assert(m.trades[i] == st.trades[i]);
                        }
                    }
                }
            }
        }
    }
}

/// Law: over any bars and any signals, a run that does not overflow keeps
/// the bookkeeping invariant; in particular its trades alternate between
/// buys and sells, starting with a buy.
pub proof fn lemma_replay_run_ok(cfg: BacktestConfig, bars: Seq<OHLCV>, sigs: Seq<Signal>)
    ensures
        replay_fold(cfg, bars, sigs) matches Some(m) ==> run_ok(m),
    decreases bars.len(),
{
    if bars.len() > 0 {
        lemma_replay_run_ok(cfg, bars.drop_last(), sigs.drop_last());
        if let Some(st) = replay_fold(cfg, bars.drop_last(), sigs.drop_last()) {
            lemma_step_keeps_run_ok(cfg, st, bars.last(), sigs.last());
        }
    }
}

/// Law: whatever the signals, the trades of a run's result alternate
/// between buys and sells, starting with a buy.
pub proof fn lemma_run_trades_alternate(cfg: BacktestConfig, bars: Seq<OHLCV>, sigs: Seq<Signal>)
    ensures
        run_spec(cfg, bars, sigs) matches Some(m) ==> trades_alternate(m.trades),
{
    lemma_replay_run_ok(cfg, bars, sigs);
}

/// The cash bookkeeping of acting on `sig` comes out without rounding: a
/// purchase's total taken from the cash and added to the cost basis, a
/// sale's net added to the cash and its cost basis taken from the net.
pub open spec fn act_exact(
    cfg: BacktestConfig,
    st: RunModel,
    buy_fill: (int, int),
    sell_fill: (int, int),
    sig: Signal,
) -> bool {
    match sig {
        Signal::BuyAll => match buy_plan(st.cash, st.position, buy_fill, cfg.commission_bps@) {
            BuyPlan::Spend { total, .. } => difference_exact(st.cash, total) && sum_exact(st.basis, total),
            _ => true,
        },
        Signal::SellAll => match sell_outcome(st.cash, st.position, st.basis, sell_fill, cfg.commission_bps@) {
            SellOutcome::Sold { net, .. } => difference_exact(net, st.basis) && sum_exact(st.cash, net),
            _ => true,
        },
        Signal::Hold => true,
    }
}

/// Valuing the state after a bar at the close comes out without rounding
/// when nothing is held: no shares are worth zero, and adding that to the
/// cash keeps it.
pub open spec fn mark_exact(a: RunModel, close: (int, int)) -> bool {
    a.position == 0 ==> (decimal_checked_product(close, int_model(0)) matches Some(v) && at28(v) == 0
        && sum_exact(a.cash, v))
}

/// The bookkeeping of one bar comes out without rounding.
pub open spec fn step_exact(cfg: BacktestConfig, st: RunModel, bar: OHLCV, sig: Signal) -> bool {
    match fill_prices(cfg, bar.close@) {
        None => true,
        Some((buy_fill, sell_fill)) => act_exact(cfg, st, buy_fill, sell_fill, sig) && match act_spec(
            cfg,
            st,
            day_spec(bar.timestamp as int),
            buy_fill,
            sell_fill,
            sig,
        ) {
            None => true,
            Some(a) => mark_exact(a, bar.close@),
        },
    }
}

/// The bookkeeping of every bar of a run over `bars` with signals `sigs`
/// comes out without rounding.
pub open spec fn bookkeeping_exact(cfg: BacktestConfig, bars: Seq<OHLCV>, sigs: Seq<Signal>) -> bool
    decreases bars.len(),
{
    if bars.len() == 0 {
        true
    } else {
        &&& bookkeeping_exact(cfg, bars.drop_last(), sigs.drop_last())
        &&& match replay_fold(cfg, bars.drop_last(), sigs.drop_last()) {
            None => true,
            Some(st) => step_exact(cfg, st, bars.last(), sigs.last()),
        }
    }
}

/// The sum of the profits booked by `t` (sales carry one, purchases none),
/// in units of `10^-28`.
pub open spec fn pnl_total(t: Seq<TradeModel>) -> int
    decreases t.len(),
{
    if t.len() == 0 {
        0
    } else {
        pnl_total(t.drop_last()) + match t.last().pnl {
            Some(p) => at28(p),
            None => 0,
        }
    }
}

/// The cash, plus the cost of the shares held, is the initial cash plus the
/// profits booked, and no shares leave no cost basis.
pub open spec fn cash_balance(cfg: BacktestConfig, m: RunModel) -> bool {
    &&& m.position == 0 ==> m.basis == zero_model()
    &&& at28(m.cash) + (if m.position > 0 {
        at28(m.basis)
    } else {
        0
    }) == at28(cfg.initial_cash@) + pnl_total(m.trades)
}

/// The books of a run after `n` bars balance: the cash, plus the cost of
/// the shares held, is the initial cash plus the profits booked; no shares
/// leave no cost basis; and, with no shares held, the last equity figure is
/// the cash.
pub open spec fn books_balance(cfg: BacktestConfig, m: RunModel, n: int) -> bool {
    &&& cash_balance(cfg, m)
    &&& m.equity.len() == n
    &&& (n > 0 && m.position == 0 ==> at28(m.equity.last()) == at28(m.cash))
}

/// A bar whose bookkeeping needs no rounding keeps the books balanced.
proof fn lemma_step_balances(cfg: BacktestConfig, st: RunModel, n: int, bar: OHLCV, sig: Signal)
    requires
        run_ok(st),
        books_balance(cfg, st, n),
        step_exact(cfg, st, bar, sig),
    ensures
        step_spec(cfg, Some(st), bar, sig) matches Some(m) ==> books_balance(cfg, m, n + 1),
{
    assert(at28(zero_model()) == 0);
    if let Some((buy_fill, sell_fill)) = fill_prices(cfg, bar.close@) {
        let day = day_spec(bar.timestamp as int);
        let a = act_spec(cfg, st, day, buy_fill, sell_fill, sig);
        if let Some(am) = a {
            assert(cash_balance(cfg, am)) by {
                if am.trades.len() == st.trades.len() + 1 {
                    assert(am.trades.drop_last() =~= st.trades);
                }
                match sig {
                    Signal::BuyAll => {
                        if let BuyPlan::Spend { shares, total } = buy_plan(
                            st.cash,
                            st.position,
                            buy_fill,
                            cfg.commission_bps@,
                        ) {
                            if let BuyOutcome::Bought { shares: sh, cash: nc, cost_basis: nb } = buy_outcome(
                                st.cash,
                                st.position,
                                st.basis,
                                buy_fill,
                                cfg.commission_bps@,
                            ) {
                                assert(st.position == 0);
                                assert(decimal_checked_difference(st.cash, total) == Some(nc));
                                assert(decimal_checked_sum(st.basis, total) == Some(nb));
                                assert(at28(nc) + at28(nb) == at28(st.cash));
                                assert(am.cash == nc && am.basis == nb && am.position == sh && sh > 0);
                                assert(pnl_total(am.trades) == pnl_total(st.trades));
                            }
                        }
                    },
                    Signal::SellAll => {
                        if let SellOutcome::Sold { shares, net, pnl, cash: nc } = sell_outcome(
                            st.cash,
                            st.position,
                            st.basis,
                            sell_fill,
                            cfg.commission_bps@,
                        ) {
                            assert(decimal_checked_difference(net, st.basis) == Some(pnl));
                            assert(decimal_checked_sum(st.cash, net) == Some(nc));
                            assert(am.cash == nc && am.position == 0 && am.basis == zero_model());
                            assert(pnl_total(am.trades) == pnl_total(st.trades) + at28(pnl));
                        }
                    },
                    Signal::Hold => {},
                }
            }
            assert(am.equity == st.equity);
            if let Some(v) = total_value_spec(am.cash, am.position, bar.close@) {
                let m = RunModel { equity: am.equity.push(v), ..am };
                assert(m.equity.last() == v);
            }
        }
    }
}

/// The books of a run whose bookkeeping needs no rounding stay balanced.
proof fn lemma_replay_balances(cfg: BacktestConfig, bars: Seq<OHLCV>, sigs: Seq<Signal>)
    requires
        bookkeeping_exact(cfg, bars, sigs),
    ensures
        replay_fold(cfg, bars, sigs) matches Some(m) ==> run_ok(m) && books_balance(cfg, m, bars.len() as int),
    decreases bars.len(),
{
    lemma_replay_run_ok(cfg, bars, sigs);
    if bars.len() > 0 {
        lemma_replay_balances(cfg, bars.drop_last(), sigs.drop_last());
        if let Some(st) = replay_fold(cfg, bars.drop_last(), sigs.drop_last()) {
            lemma_step_balances(cfg, st, bars.len() - 1, bars.last(), sigs.last());
        }
    }
}

/// There are no trades, or the last one is a sale.
pub open spec fn ends_sold(t: Seq<TradeModel>) -> bool {
    t.len() == 0 || t.last().action == TradeAction::Sell
}

/// Law: in a run whose bookkeeping needs no decimal rounding, once the last
/// trade is a sale (or there is none), the final equity is the initial cash
/// plus the profits of the sales.
pub proof fn lemma_final_equity(cfg: BacktestConfig, bars: Seq<OHLCV>, sigs: Seq<Signal>)
    requires
        bookkeeping_exact(cfg, bars, sigs),
    ensures
        run_spec(cfg, bars, sigs) matches Some(res) ==> ends_sold(res.trades) ==> at28(res.final_equity) == at28(
            cfg.initial_cash@,
        ) + pnl_total(res.trades),
{
    lemma_replay_balances(cfg, bars, sigs);
    if bars.len() > 0 {
        if let Some(m) = replay_fold(cfg, bars, sigs) {
            if m.trades.len() > 0 && m.trades.last().action == TradeAction::Sell {
                let k = m.trades.len() - 1;
                assert(m.trades[k].action == TradeAction::Sell);
                assert(k % 2 == 1);
            }
        }
    } else {
        assert(pnl_total(Seq::<TradeModel>::empty()) == 0);
    }
}

/// The last bar of a run appends the value of the holdings after it: the
/// cash plus the shares held at that bar's close; the figures before stay.
proof fn lemma_last_equity(cfg: BacktestConfig, bars: Seq<OHLCV>, sigs: Seq<Signal>)
    requires
        bars.len() > 0,
    ensures
        replay_fold(cfg, bars, sigs) matches Some(m) ==> {
            &&& replay_fold(cfg, bars.drop_last(), sigs.drop_last()) matches Some(m0)
            &&& m.equity.drop_last() == m0.equity
            &&& m.equity.len() == m0.equity.len() + 1
            &&& decimal_checked_product(bars.last().close@, int_model(m.position)) matches Some(v)
            &&& decimal_checked_sum(m.cash, v) == Some(m.equity.last())
        },
{
    if let Some(m0) = replay_fold(cfg, bars.drop_last(), sigs.drop_last()) {
        if let Some((buy_fill, sell_fill)) = fill_prices(cfg, bars.last().close@) {
            let a = act_spec(cfg, m0, day_spec(bars.last().timestamp as int), buy_fill, sell_fill, sigs.last());
            if let Some(am) = a {
                assert(am.equity == m0.equity);
                if let Some(v) = total_value_spec(am.cash, am.position, bars.last().close@) {
                    let m = RunModel { equity: am.equity.push(v), ..am };
                    assert(m.equity.drop_last() =~= m0.equity);
                }
            }
        }
    }
}

/// Law: each figure of a run's equity curve is the value of the holdings
/// after that bar, the cash plus the shares held times the bar's close:
/// `equity[k] = cash_k + close_k * position_k`, as the decimal product and
/// sum give it; where neither rounds, exactly that value.
pub proof fn lemma_equity_values_holdings(cfg: BacktestConfig, bars: Seq<OHLCV>, sigs: Seq<Signal>, k: int)
    requires
        0 <= k < bars.len(),
        sigs.len() == bars.len(),
    ensures
        replay_fold(cfg, bars, sigs) matches Some(m) ==> {
            &&& m.equity.len() == bars.len()
            &&& replay_fold(cfg, bars.take(k + 1), sigs.take(k + 1)) matches Some(mk)
            &&& decimal_checked_product(bars[k].close@, int_model(mk.position)) matches Some(v)
            &&& decimal_checked_sum(mk.cash, v) == Some(m.equity[k])
            &&& (times_exact(bars[k].close@, mk.position) && sum_exact(mk.cash, v) ==> at28(m.equity[k]) == at28(
                mk.cash,
            ) + mk.position * at28(bars[k].close@))
        },
    decreases bars.len(),
{
    lemma_last_equity(cfg, bars, sigs);
    if let Some(m) = replay_fold(cfg, bars, sigs) {
        let m0 = replay_fold(cfg, bars.drop_last(), sigs.drop_last())->0;
        if k == bars.len() - 1 {
            assert(bars.take(k + 1) =~= bars);
            assert(sigs.take(k + 1) =~= sigs);
            if bars.len() > 1 {
                lemma_equity_values_holdings(cfg, bars.drop_last(), sigs.drop_last(), 0);
            }
        } else {
            lemma_equity_values_holdings(cfg, bars.drop_last(), sigs.drop_last(), k);
            assert(bars.drop_last().take(k + 1) =~= bars.take(k + 1));
            assert(sigs.drop_last().take(k + 1) =~= sigs.take(k + 1));
            assert(bars.drop_last()[k] == bars[k]);
            assert(m.equity[k] == m.equity.drop_last()[k]);
        }
        if bars.len() == 1 {
            assert(m0.equity.len() == 0);
        }
    }
}

/// Law: buys fill at the close raised by the slippage and sells at the
/// close lowered by it: `close * (1 + bps / 10000)` and
/// `close * (1 - bps / 10000)`.
pub proof fn lemma_fill_prices(cfg: BacktestConfig, close: (int, int))
    ensures
        fill_prices(cfg, close) matches Some((buy_fill, sell_fill)) ==> {
            let slip = decimal_quotient(cfg.slippage_bps@, int_model(10000));
            &&& buy_fill == decimal_product(close, decimal_sum(int_model(1), slip))
            &&& sell_fill == decimal_product(close, decimal_difference(int_model(1), slip))
        },
{
}

/// Law: a signal that trades records one trade dated on the bar's day: a
/// buy at the buy fill of the shares it adds to a flat position, with no
/// profit figure; a sale at the sell fill of every share held, leaving none,
/// with a profit figure. A hold records nothing and changes nothing.
pub proof fn lemma_act_records(
    cfg: BacktestConfig,
    st: RunModel,
    day: int,
    buy_fill: (int, int),
    sell_fill: (int, int),
    sig: Signal,
)
    requires
        st.position >= 0,
    ensures
        act_spec(cfg, st, day, buy_fill, sell_fill, sig) matches Some(a) ==> {
            &&& a.equity == st.equity
            &&& (a.trades.len() == st.trades.len() || a.trades.len() == st.trades.len() + 1)
            &&& a.trades.len() == st.trades.len() ==> a == st
            &&& a.trades.len() == st.trades.len() + 1 ==> {
                &&& a.trades.drop_last() == st.trades
                &&& a.trades.last().date == day
                &&& sig == Signal::BuyAll ==> {
                    &&& a.trades.last().action == TradeAction::Buy
                    &&& a.trades.last().price == buy_fill
                    &&& a.trades.last().pnl is None
                    &&& st.position == 0
                    &&& a.trades.last().quantity > 0
                    &&& a.position == a.trades.last().quantity
                }
                &&& sig == Signal::SellAll ==> {
                    &&& a.trades.last().action == TradeAction::Sell
                    &&& a.trades.last().price == sell_fill
                    &&& a.trades.last().pnl is Some
                    &&& a.trades.last().quantity == st.position
                    &&& st.position > 0
                    &&& a.position == 0
                }
                &&& sig != Signal::Hold
            }
        },
{
    if let Some(a) = act_spec(cfg, st, day, buy_fill, sell_fill, sig) {
        if a.trades.len() == st.trades.len() + 1 {
            assert(a.trades.drop_last() =~= st.trades);
        }
    }
}

/// An overflow anywhere stays an overflow to the end of the run.
proof fn lemma_replay_none_stays(cfg: BacktestConfig, bars: Seq<OHLCV>, sigs: Seq<Signal>, k: int)
    requires
        0 <= k <= bars.len(),
        bars.len() == sigs.len(),
        replay_fold(cfg, bars.take(k), sigs.take(k)) is None,
    ensures
        replay_fold(cfg, bars, sigs) is None,
    decreases bars.len() - k,
{
    if k < bars.len() {
        assert(bars.take(k + 1).drop_last() =~= bars.take(k));
        assert(sigs.take(k + 1).drop_last() =~= sigs.take(k));
        lemma_replay_none_stays(cfg, bars, sigs, k + 1);
    } else {
        assert(bars.take(k) =~= bars);
        assert(sigs.take(k) =~= sigs);
    }
}

/// The bars of `all_data` that a run with `cfg` trades on.
pub open spec fn date_window(cfg: BacktestConfig, all_data: Seq<OHLCV>) -> Seq<OHLCV> {
    window_bars(all_data, cfg.start_date as int, cfg.end_date as int)
}

/// The signals a strategy gives on the first `k` bars of a run over `bars`,
/// and its state after them, starting in state `s`. On bar `j` it is shown
/// the history `bars[..=j]` with the position and cash the run holds after
/// the bars before. Once the run has overflowed it is asked no more, and
/// `Hold` stands in for its answers.
pub open spec fn driven<S: Strategy>(cfg: BacktestConfig, s: S, bars: Seq<OHLCV>, k: nat) -> (Seq<Signal>, S)
    decreases k,
{
    if k == 0 {
        (Seq::empty(), s)
    } else {
        let prev = driven(cfg, s, bars, (k - 1) as nat);
        match replay_fold(cfg, bars.take(k - 1), prev.0) {
            Some(m) => (
                prev.0.push(prev.1.signal_spec(bars.take(k as int), m.position, m.cash)),
                prev.1.next_spec(bars.take(k as int), m.position, m.cash),
            ),
            None => (prev.0.push(Signal::Hold), prev.1),
        }
    }
}

/// The strategy, in the state it reaches before bar `k`, admits the history
/// it is shown there (where the run has not overflowed before).
pub open spec fn admits_at<S: Strategy>(cfg: BacktestConfig, s: S, bars: Seq<OHLCV>, k: int) -> bool {
    let prev = driven(cfg, s, bars, k as nat);
    replay_fold(cfg, bars.take(k), prev.0) is Some ==> prev.1.admits(bars.take(k + 1))
}

/// Every state a strategy passes through in a run over `bars` from state
/// `s` admits the history it is shown.
pub open spec fn run_admitted<S: Strategy>(cfg: BacktestConfig, s: S, bars: Seq<OHLCV>) -> bool {
    forall|k: int| 0 <= k < bars.len() ==> #[trigger] admits_at(cfg, s, bars, k)
}

/// One signal per bar asked.
pub proof fn lemma_driven_len<S: Strategy>(cfg: BacktestConfig, s: S, bars: Seq<OHLCV>, k: nat)
    ensures
        driven(cfg, s, bars, k).0.len() == k,
    decreases k,
{
    if k > 0 {
        lemma_driven_len(cfg, s, bars, (k - 1) as nat);
    }
}

/// After an overflow the strategy is left as it was and the run stays
/// overflowed.
proof fn lemma_driven_after_none<S: Strategy>(cfg: BacktestConfig, s: S, bars: Seq<OHLCV>, j: nat, k: nat)
    requires
        j <= k <= bars.len(),
        replay_fold(cfg, bars.take(j as int), driven(cfg, s, bars, j).0) is None,
    ensures
        driven(cfg, s, bars, k).1 == driven(cfg, s, bars, j).1,
        replay_fold(cfg, bars.take(k as int), driven(cfg, s, bars, k).0) is None,
    decreases k - j,
{
    if k > j {
        let k1 = (k - 1) as nat;
        lemma_driven_after_none(cfg, s, bars, j, k1);
        let prev = driven(cfg, s, bars, k1);
        let cur = driven(cfg, s, bars, k);
        assert(cur == (prev.0.push(Signal::Hold), prev.1));
        assert(bars.take(k as int).drop_last() =~= bars.take(k1 as int));
        assert(cur.0.drop_last() =~= prev.0);
    }
}

/// Runs strategies over daily bars.
pub struct Engine {
    pub config: BacktestConfig,
}

impl Engine {
    /// An engine with the given settings.
    pub fn new(config: BacktestConfig) -> (r: Engine)
        ensures
            r.config == config,
    {
        Engine { config }
    }

    /// The bars of `all_data` whose UTC day lies within the configured dates.
    fn window(&self, all_data: &[OHLCV]) -> (w: Vec<OHLCV>)
        ensures
            w@ == window_bars(all_data@, self.config.start_date as int, self.config.end_date as int),
    {
        let ghost start = self.config.start_date as int;
        let ghost end = self.config.end_date as int;
        let mut w: Vec<OHLCV> = Vec::new();
        let mut i: usize = 0;
        proof {
            assert(all_data@.take(0) =~= Seq::<OHLCV>::empty());
        }
        while i < all_data.len()
            invariant
                i <= all_data@.len(),
                start == self.config.start_date,
                end == self.config.end_date,
                w@ == window_bars(all_data@.take(i as int), start, end),
            decreases all_data.len() - i,
        {
            proof {
                assert(all_data@.take(i as int + 1).drop_last() =~= all_data@.take(i as int));
                assert(all_data@.take(i as int + 1).last() == all_data@[i as int]);
            }
            let d = day_of_timestamp(all_data[i].timestamp);
            if self.config.start_date <= d && d <= self.config.end_date {
                w.push(all_data[i].clone());
            }
            i = i + 1;
        }
        proof {
            assert(all_data@.take(all_data@.len() as int) =~= all_data@);
        }
        w
    }

    /// One bar: computes both fill prices, acts on `signal`, records the
    /// trade and appends the equity at the close.
    fn step(
        &self,
        p: &mut Portfolio,
        trades: &mut Vec<Trade>,
        equity: &mut Vec<Dec>,
        bar: &OHLCV,
        signal: Signal,
    ) -> (r: Result<(), Overflow>)
        requires
            old(p).position >= 0,
        ensures
            match step_spec(self.config, Some(run_model(*old(p), old(trades)@, old(equity)@)), *bar, signal) {
                None => r is Err,
                Some(m) => r is Ok && run_model(*final(p), final(trades)@, final(equity)@) == m
                    && final(p).position >= 0,
            },
    {
        let ghost st = run_model(*p, trades@, equity@);
        let ten_k = Dec::from_i64(10000);
        let one = Dec::from_i64(1);
        let slip = or_overflow(dec_checked_div(self.config.slippage_bps, ten_k))?;
        let up = or_overflow(dec_checked_add(one, slip))?;
        let buy_fill = or_overflow(dec_checked_mul(bar.close, up))?;
        let down = or_overflow(dec_checked_sub(one, slip))?;
        let sell_fill = or_overflow(dec_checked_mul(bar.close, down))?;
        let day = day_of_timestamp(bar.timestamp);
        let ghost acted = act_spec(self.config, st, day as int, buy_fill@, sell_fill@, signal);
        match signal {
            Signal::BuyAll => {
                match p.buy_all(buy_fill, self.config.commission_bps)? {
                    Some((qty, _)) => {
                        let amount = or_overflow(dec_checked_mul(buy_fill, Dec::from_i64(qty)))?;
                        let t = Trade {
                            date: day,
                            action: TradeAction::Buy,
                            price: buy_fill,
                            quantity: qty,
                            amount,
                            pnl: None,
                        };
                        trades.push(t);
                        proof {
                            assert(trade_models(trades@) =~= st.trades.push(trade_model(t)));
                        }
                    },
                    None => {},
                }
            },
            Signal::SellAll => {
                match p.sell_all(sell_fill, self.config.commission_bps)? {
                    Some((qty, _net, pnl)) => {
                        let amount = or_overflow(dec_checked_mul(sell_fill, Dec::from_i64(qty)))?;
                        let t = Trade {
                            date: day,
                            action: TradeAction::Sell,
                            price: sell_fill,
                            quantity: qty,
                            amount,
                            pnl: Some(pnl),
                        };
                        trades.push(t);
                        proof {
                            assert(trade_models(trades@) =~= st.trades.push(trade_model(t)));
                        }
                    },
                    None => {},
                }
            },
            Signal::Hold => {},
        }
        proof {
            assert(acted == Some(run_model(*p, trades@, equity@)));
        }
        let v = p.total_value(bar.close)?;
        equity.push(v);
        proof {
            assert(views(equity@) =~= st.equity.push(v@));
        }
        Ok(())
    }

    /// Replays `bars` with the signal at the same index of `signals` for
    /// each bar, as [`Engine::run`] does with the signals of its strategy.
    pub fn replay(&self, bars: &[OHLCV], signals: &[Signal]) -> (r: Result<BacktestResult, Overflow>)
        requires
            signals@.len() == bars@.len(),
        ensures
            run_outcome(self.config, bars@, signals@, r),
    {
        let n = bars.len();
        if n == 0 {
            return Ok(BacktestResult::empty(self.config.initial_cash));
        }
        let mut p = Portfolio::new(self.config.initial_cash);
        let mut trades: Vec<Trade> = Vec::new();
        let mut equity: Vec<Dec> = Vec::new();
        let mut i: usize = 0;
        proof {
            assert(bars@.take(0) =~= Seq::<OHLCV>::empty());
            assert(run_model(p, trades@, equity@) == start_model(self.config)) by {
                assert(trade_models(trades@) =~= Seq::<TradeModel>::empty());
                assert(views(equity@) =~= Seq::<(int, int)>::empty());
            }
        }
        while i < n
            invariant
                n == bars@.len() == signals@.len(),
                i <= n,
                p.position >= 0,
                replay_fold(self.config, bars@.take(i as int), signals@.take(i as int)) == Some(
                    run_model(p, trades@, equity@),
                ),
            decreases n - i,
        {
            proof {
                assert(bars@.take(i as int + 1).drop_last() =~= bars@.take(i as int));
                assert(signals@.take(i as int + 1).drop_last() =~= signals@.take(i as int));
                assert(bars@.take(i as int + 1).last() == bars@[i as int]);
                assert(signals@.take(i as int + 1).last() == signals@[i as int]);
            }
            match self.step(&mut p, &mut trades, &mut equity, &bars[i], signals[i]) {
                Ok(()) => {},
                Err(e) => {
                    proof {
                        lemma_replay_none_stays(self.config, bars@, signals@, i as int + 1);
                    }
                    return Err(e);
                },
            }
            i = i + 1;
        }
        proof {
            assert(bars@.take(n as int) =~= bars@);
            assert(signals@.take(n as int) =~= signals@);
        }
        BacktestResult::calculate(self.config.initial_cash, trades, equity)
    }

    /// Runs `strategy` over the bars of `all_data` (in ascending time order)
    /// whose UTC day lies within the configured dates. With no such bar the
    /// result is the empty one and the strategy is not touched. Otherwise the
    /// strategy is reset once, then asked once per bar, in order: on bar `k`
    /// it is shown the history `window[..=k]`, the position and the cash.
    /// Whatever the strategy answers, the result is that of replaying the
    /// window with some signal per bar, and its trades alternate between buys
    /// and sells. For a strategy that keeps its contract (`obeys_spec`) the
    /// signals are those its spec functions give on what it is shown, and so
    /// is its final state.
    pub fn run<S: Strategy>(&self, all_data: &[OHLCV], strategy: &mut S) -> (r: Result<BacktestResult, Overflow>)
        requires
            S::obeys_spec() ==> run_admitted(self.config, old(strategy).reset_spec(), date_window(self.config, all_data@)),
        ensures
            exists|sigs: Seq<Signal>|
                sigs.len() == date_window(self.config, all_data@).len() && #[trigger] run_outcome(
                    self.config,
                    date_window(self.config, all_data@),
                    sigs,
                    r,
                ),
            S::obeys_spec() ==> run_outcome(
                self.config,
                date_window(self.config, all_data@),
                driven(
                    self.config,
                    old(strategy).reset_spec(),
                    date_window(self.config, all_data@),
                    date_window(self.config, all_data@).len(),
                ).0,
                r,
            ),
            date_window(self.config, all_data@).len() == 0 ==> *final(strategy) == *old(strategy),
            S::obeys_spec() && date_window(self.config, all_data@).len() > 0 ==> *final(strategy) == driven(
                self.config,
                old(strategy).reset_spec(),
                date_window(self.config, all_data@),
                date_window(self.config, all_data@).len(),
            ).1,
            r matches Ok(res) ==> trades_alternate(result_model(res).trades),
    {
        let window = self.window(all_data);
        let ghost bars = window@;
        let n = window.len();
        if n == 0 {
            let r = Ok(BacktestResult::empty(self.config.initial_cash));
            proof {
                assert(bars == date_window(self.config, all_data@));
                assert(run_outcome(self.config, bars, Seq::<Signal>::empty(), r));
                assert(Seq::<Signal>::empty().len() == bars.len());
            }
            return r;
        }
        let mut p = Portfolio::new(self.config.initial_cash);
        let mut trades: Vec<Trade> = Vec::new();
        let mut equity: Vec<Dec> = Vec::new();
        strategy.reset();
        let ghost s0 = *strategy;
        let mut history: Vec<OHLCV> = Vec::new();
        let ghost mut sigs: Seq<Signal> = Seq::empty();
        let mut i: usize = 0;
        proof {
            assert(bars.take(0) =~= Seq::<OHLCV>::empty());
            assert(run_model(p, trades@, equity@) == start_model(self.config)) by {
                assert(trade_models(trades@) =~= Seq::<TradeModel>::empty());
                assert(views(equity@) =~= Seq::<(int, int)>::empty());
            }
        }
        while i < n
            invariant
                n == bars.len(),
                bars == window@,
                bars == date_window(self.config, all_data@),
                S::obeys_spec() ==> run_admitted(self.config, s0, bars),
                S::obeys_spec() ==> s0 == old(strategy).reset_spec(),
                i <= n,
                p.position >= 0,
                sigs.len() == i,
                S::obeys_spec() ==> sigs == driven(self.config, s0, bars, i as nat).0,
                S::obeys_spec() ==> *strategy == driven(self.config, s0, bars, i as nat).1,
                history@ == bars.take(i as int),
                replay_fold(self.config, bars.take(i as int), sigs) == Some(run_model(p, trades@, equity@)),
            decreases n - i,
        {
            history.push(window[i].clone());
            proof {
                assert(history@ =~= bars.take(i as int + 1));
                if S::obeys_spec() {
                    assert(admits_at(self.config, s0, bars, i as int));
                }
            }
            let ghost st = run_model(p, trades@, equity@);
            let signal = {
                let ctx = BarContext::new(history.as_slice(), p.position, p.cash);
                strategy.on_bar(&ctx)
            };
            let ghost before = sigs;
            proof {
                sigs = sigs.push(signal);
                if S::obeys_spec() {
                    assert(driven(self.config, s0, bars, i as nat + 1).0 == sigs);
                    assert(driven(self.config, s0, bars, i as nat + 1).1 == *strategy);
                }
                assert(bars.take(i as int + 1).drop_last() =~= bars.take(i as int));
                assert(sigs.drop_last() =~= before);
                assert(bars.take(i as int + 1).last() == bars[i as int]);
            }
            match self.step(&mut p, &mut trades, &mut equity, &window[i], signal) {
                Ok(()) => {},
                Err(e) => {
                    let r = Err(e);
                    proof {
                        assert(replay_fold(self.config, bars.take(i as int + 1), sigs) == step_spec(
                            self.config,
                            Some(st),
                            bars[i as int],
                            signal,
                        ));
                        let all = sigs + Seq::new((n - i - 1) as nat, |k: int| Signal::Hold);
                        assert(all.take(i as int + 1) =~= sigs);
                        lemma_replay_none_stays(self.config, bars, all, i as int + 1);
                        assert(run_outcome(self.config, bars, all, r));
                        if S::obeys_spec() {
                            lemma_driven_after_none(self.config, s0, bars, i as nat + 1, n as nat);
                            assert(bars.take(n as int) =~= bars);
                        }
                    }
                    return r;
                },
            }
            i = i + 1;
        }
        proof {
            assert(bars.take(n as int) =~= bars);
        }
        let r = BacktestResult::calculate(self.config.initial_cash, trades, equity);
        proof {
            assert(run_outcome(self.config, bars, sigs, r));
            lemma_run_trades_alternate(self.config, bars, sigs);
        }
        r
    }
}

} // verus!
