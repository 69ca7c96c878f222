//! Trades and the summary figures of a backtest.

use vstd::prelude::*;
use crate::decimal::{
    Dec, Overflow, abs, dec_checked_div, dec_checked_sub, dec_div, dec_lt, decimal_checked_difference,
    decimal_checked_quotient, decimal_quotient, int_model, lemma_compare_zero, lemma_dec_scale,
    lemma_mag_int, lemma_pow10_pos, lemma_quotient_bound_le, less_value, max_mantissa, or_overflow,
    pow10, quotient_bound, zero_model,
};

use crate::dates::{day_in_range, day_text, format_day};
use crate::decimal::{dec_to_text, decimal_text};
use crate::error::{i64_digits, signed_digits};
use crate::text::{append_chars, from_chars, to_chars};

verus! {

broadcast use lemma_dec_scale;

/// Side of a trade.
#[derive(Debug, Clone, Copy, PartialEq, Eq, Structural)]
pub enum TradeAction {
    Buy,
    Sell,
}

/// One executed trade.
#[derive(Debug, Clone, Copy)]
pub struct Trade {
    /// Day of the trade, counted in days from 1970-01-01.
    pub date: i64,
    pub action: TradeAction,
    /// Fill price per share.
    pub price: Dec,
    pub quantity: i64,
    /// `price * quantity`.
    pub amount: Dec,
    /// Realised profit; present on sells only.
    pub pnl: Option<Dec>,
}

/// A trade as plain values.
pub struct TradeModel {
    pub date: int,
    pub action: TradeAction,
    pub price: (int, int),
    pub quantity: int,
    pub amount: (int, int),
    pub pnl: Option<(int, int)>,
}

/// The plain values of a trade.
pub open spec fn trade_model(t: Trade) -> TradeModel {
    TradeModel {
        date: t.date as int,
        action: t.action,
        price: t.price@,
        quantity: t.quantity as int,
        amount: t.amount@,
        pnl: match t.pnl {
            Some(p) => Some(p@),
            None => None,
        },
    }
}

/// The plain values of a list of trades.
pub open spec fn trade_models(s: Seq<Trade>) -> Seq<TradeModel> {
    s.map_values(|t: Trade| trade_model(t))
}

/// The views of a list of decimals.
pub open spec fn views(s: Seq<Dec>) -> Seq<(int, int)> {
    s.map_values(|d: Dec| d@)
}

/// Summary of a backtest run.
#[derive(Debug, Clone)]
pub struct BacktestResult {
    /// `(final_equity - initial_cash) / initial_cash`, or 0 without cash.
    pub total_return: Dec,
    /// Compound annual growth; a floating-point figure, left at zero here
    /// and filled in by the caller.
    pub annualized_return: Dec,
    /// The largest fall from a running peak, as a non-positive fraction.
    pub max_drawdown: Dec,
    /// Share of sells that realised a profit.
    pub win_rate: Dec,
    /// Annualised Sharpe ratio; a floating-point figure, left at zero here
    /// and filled in by the caller.
    pub sharpe_ratio: Dec,
    pub total_trades: usize,
    pub trades: Vec<Trade>,
    /// Portfolio value after each bar.
    pub equity_curve: Vec<Dec>,
    pub initial_cash: Dec,
    pub final_equity: Dec,
}

/// The decimal figures of a result as plain values.
pub struct ResultModel {
    pub total_return: (int, int),
    pub max_drawdown: (int, int),
    pub win_rate: (int, int),
    pub total_trades: int,
    pub trades: Seq<TradeModel>,
    pub equity: Seq<(int, int)>,
    pub initial_cash: (int, int),
    pub final_equity: (int, int),
}

/// The plain values of a result (the floating-point figures aside).
pub open spec fn result_model(r: BacktestResult) -> ResultModel {
    ResultModel {
        total_return: r.total_return@,
        max_drawdown: r.max_drawdown@,
        win_rate: r.win_rate@,
        total_trades: r.total_trades as int,
        trades: trade_models(r.trades@),
        equity: views(r.equity_curve@),
        initial_cash: r.initial_cash@,
        final_equity: r.final_equity@,
    }
}

/// The last equity value, or the initial cash for an empty curve.
pub open spec fn final_equity_spec(initial: (int, int), equity: Seq<(int, int)>) -> (int, int) {
    if equity.len() == 0 {
        initial
    } else {
        equity.last()
    }
}

/// `(final - initial) / initial` for positive initial cash, else 0; `None`
/// where a decimal operation overflows.
pub open spec fn total_return_spec(initial: (int, int), fin: (int, int)) -> Option<(int, int)> {
    if initial.0 > 0 {
        match decimal_checked_difference(fin, initial) {
            None => None,
            Some(d) => decimal_checked_quotient(d, initial),
        }
    } else {
        Some(zero_model())
    }
}

/// One step of the drawdown scan over `(peak, largest drawdown)`: the peak
/// rises to `e` when `e` is above it, and while the peak is positive the
/// drawdown `(peak - e) / peak` replaces the largest one when larger.
pub open spec fn drawdown_step(
    st: Option<((int, int), (int, int))>,
    e: (int, int),
) -> Option<((int, int), (int, int))> {
    match st {
        None => None,
        Some(pm) => {
            let peak = if less_value(pm.0, e) {
                e
            } else {
                pm.0
            };
            if peak.0 > 0 {
                match decimal_checked_difference(peak, e) {
                    None => None,
                    Some(diff) => match decimal_checked_quotient(diff, peak) {
                        None => None,
                        Some(dd) => Some(
                            (
                                peak,
                                if less_value(pm.1, dd) {
                                    dd
                                } else {
                                    pm.1
                                },
                            ),
                        ),
                    },
                }
            } else {
                Some((peak, pm.1))
            }
        },
    }
}

/// The drawdown scan over `s` from `init`.
pub open spec fn drawdown_fold(
    s: Seq<(int, int)>,
    init: Option<((int, int), (int, int))>,
) -> Option<((int, int), (int, int))>
    decreases s.len(),
{
    if s.len() == 0 {
        init
    } else {
        drawdown_step(drawdown_fold(s.drop_last(), init), s.last())
    }
}

/// Maximum drawdown: 0 for an empty curve, else minus the largest
/// drawdown found by the scan started at the first value.
pub open spec fn max_drawdown_spec(s: Seq<(int, int)>) -> Option<(int, int)> {
    if s.len() == 0 {
        Some(zero_model())
    } else {
        match drawdown_fold(s, Some((s[0], zero_model()))) {
            None => None,
            Some(pm) => Some((-pm.1.0, pm.1.1)),
        }
    }
}

/// Number of sells.
pub open spec fn sell_count(s: Seq<TradeModel>) -> nat
    decreases s.len(),
{
    if s.len() == 0 {
        0
    } else {
        sell_count(s.drop_last()) + if s.last().action == TradeAction::Sell {
            1nat
        } else {
            0nat
        }
    }
}

/// A sell with a positive realised profit.
pub open spec fn is_win(t: TradeModel) -> bool {
    &&& t.action == TradeAction::Sell
    &&& (t.pnl matches Some(p) && p.0 > 0)
}

/// Number of winning sells.
pub open spec fn win_count(s: Seq<TradeModel>) -> nat
    decreases s.len(),
{
    if s.len() == 0 {
        0
    } else {
        win_count(s.drop_last()) + if is_win(s.last()) {
            1nat
        } else {
            0nat
        }
    }
}

/// Winning sells over all sells, or 0 without sells.
pub open spec fn win_rate_spec(s: Seq<TradeModel>) -> (int, int) {
    if sell_count(s) == 0 {
        zero_model()
    } else {
        decimal_quotient(int_model(win_count(s) as int), int_model(sell_count(s) as int))
    }
}

/// The figures that `calculate` derives; `None` where a decimal operation
/// overflows.
pub open spec fn calculate_spec(
    initial: (int, int),
    trades: Seq<TradeModel>,
    equity: Seq<(int, int)>,
) -> Option<ResultModel> {
    let fin = final_equity_spec(initial, equity);
    match total_return_spec(initial, fin) {
        None => None,
        Some(tr) => match max_drawdown_spec(equity) {
            None => None,
            Some(dd) => Some(
                ResultModel {
                    total_return: tr,
                    max_drawdown: dd,
                    win_rate: win_rate_spec(trades),
                    total_trades: trades.len() as int,
                    trades,
                    equity,
                    initial_cash: initial,
                    final_equity: fin,
                },
            ),
        },
    }
}

/// The figures of a run over no bars.
pub open spec fn empty_model(initial: (int, int)) -> ResultModel {
    ResultModel {
        total_return: zero_model(),
        max_drawdown: zero_model(),
        win_rate: zero_model(),
        total_trades: 0,
        trades: Seq::empty(),
        equity: Seq::empty(),
        initial_cash: initial,
        final_equity: initial,
    }
}

/// Below a non-negative number lies nothing but positive numbers' opposite:
/// anything above a non-negative decimal is positive.
proof fn lemma_above_nonneg(a: (int, int), b: (int, int))
    requires
        a.0 >= 0,
        a.1 >= 0,
        b.1 >= 0,
        less_value(a, b),
    ensures
        b.0 > 0,
{
    lemma_pow10_pos(a.1 as nat);
    lemma_pow10_pos(b.1 as nat);
    let pa = pow10(a.1 as nat);
    let pb = pow10(b.1 as nat);
    assert(a.0 * pb >= 0) by (nonlinear_arith)
        requires
            a.0 >= 0,
            pb >= 1,
    ;
    assert(b.0 > 0) by (nonlinear_arith)
        requires
            b.0 * pa > 0,
            pa >= 1,
    ;
}

/// Once the scan has overflowed it stays overflowed.
proof fn lemma_drawdown_none_stays(
    s: Seq<(int, int)>,
    k: int,
    init: Option<((int, int), (int, int))>,
)
    requires
        0 <= k <= s.len(),
        drawdown_fold(s.take(k), init) is None,
    ensures
        drawdown_fold(s, init) is None,
    decreases s.len() - k,
{
    if k < s.len() {
        assert(s.take(k + 1).drop_last() =~= s.take(k));
        lemma_drawdown_none_stays(s, k + 1, init);
    } else {
        assert(s.take(k) =~= s);
    }
}

/// Maximum drawdown of an equity curve, as a non-positive fraction of the
/// running peak: scanning the curve, the peak is the largest value so far
/// and, while it is positive, `(peak - value) / peak` is a drawdown; the
/// result is minus the largest drawdown (0 for an empty curve).
pub fn compute_max_drawdown(equity: &[Dec]) -> (r: Result<Dec, Overflow>)
    ensures
        match max_drawdown_spec(views(equity@)) {
            None => r is Err,
            Some(d) => r matches Ok(x) && x@ == d,
        },
        r matches Ok(x) ==> x@.0 <= 0,
{
    let n = equity.len();
    if n == 0 {
        return Ok(Dec::zero());
    }
    let ghost vs = views(equity@);
    let zero = Dec::zero();
    let mut peak = equity[0];
    let mut max_dd = Dec::zero();
    let ghost init: Option<((int, int), (int, int))> = Some((vs[0], zero_model()));
    let mut i: usize = 0;
    proof {
        assert(vs.take(0) =~= Seq::<(int, int)>::empty());
    }
    while i < n
        invariant
            n == equity@.len(),
            vs == views(equity@),
            i <= n,
            n > 0,
            init == Some((vs[0], zero_model())),
            drawdown_fold(vs.take(i as int), init) == Some((peak@, max_dd@)),
            max_dd@.0 >= 0,
            zero@ == zero_model(),
        decreases n - i,
    {
        let e = equity[i];
        proof {
            assert(vs.take(i as int + 1).drop_last() =~= vs.take(i as int));
            assert(vs.take(i as int + 1).last() == e@);
        }
        if dec_lt(peak, e) {
            peak = e;
        }
        proof {
            lemma_compare_zero(peak@);
        }
        if dec_lt(zero, peak) {
            let diff = match dec_checked_sub(peak, e) {
                Some(x) => x,
                None => {
                    proof {
                        lemma_drawdown_none_stays(vs, i as int + 1, init);
                    }
                    return Err(Overflow);
                },
            };
            let dd = match dec_checked_div(diff, peak) {
                Some(x) => x,
                None => {
                    proof {
                        lemma_drawdown_none_stays(vs, i as int + 1, init);
                    }
                    return Err(Overflow);
                },
            };
            if dec_lt(max_dd, dd) {
                proof {
                    lemma_above_nonneg(max_dd@, dd@);
                }
                max_dd = dd;
            }
        }
        i = i + 1;
    }
    proof {
        assert(vs.take(n as int) =~= vs);
    }
    Ok(max_dd.neg())
}

/// Winning sells over all sells (0 when there is no sell); a sell wins
/// when its realised profit is positive.
pub fn compute_win_rate(trades: &[Trade]) -> (r: Dec)
    ensures
        r@ == win_rate_spec(trade_models(trades@)),
{
    let ghost ms = trade_models(trades@);
    let n = trades.len();
    let mut sells: usize = 0;
    let mut wins: usize = 0;
    let mut i: usize = 0;
    proof {
        assert(ms.take(0) =~= Seq::<TradeModel>::empty());
    }
    while i < n
        invariant
            n == trades@.len(),
            ms == trade_models(trades@),
            i <= n,
            sells == sell_count(ms.take(i as int)),
            wins == win_count(ms.take(i as int)),
            wins <= sells <= i,
        decreases n - i,
    {
        let t = trades[i];
        proof {
            assert(ms.take(i as int + 1).drop_last() =~= ms.take(i as int));
            assert(ms.take(i as int + 1).last() == trade_model(t));
        }
        if t.action == TradeAction::Sell {
            sells = sells + 1;
            match t.pnl {
                Some(p) => {
                    if p.mantissa() > 0 {
                        wins = wins + 1;
                    }
                },
                None => {},
            }
        }
        i = i + 1;
    }
    proof {
        assert(ms.take(n as int) =~= ms);
    }
    if sells == 0 {
        return Dec::zero();
    }
    let w = Dec::from_usize(wins);
    let s = Dec::from_usize(sells);
    proof {
        lemma_mag_int(wins as int);
        lemma_quotient_bound_le(w@, s@, wins as int);
        assert(pow10(0) == 1);
        let b = wins as int;
        let d = sells as int;
        assert(abs(d) == d);
        assert((b + 1) * 1 / d <= b + 1) by (nonlinear_arith)
            requires
                b >= 0,
                d >= 1,
        ;
        assert(quotient_bound(w@, s@) + 2 < max_mantissa());
    }
    dec_div(w, s)
}

impl BacktestResult {
    /// The result of a run over no bars: all figures zero and the final
    /// equity equal to the initial cash.
    pub fn empty(initial_cash: Dec) -> (r: BacktestResult)
        ensures
            result_model(r) == empty_model(initial_cash@),
            r.annualized_return@ == zero_model(),
            r.sharpe_ratio@ == zero_model(),
    {
        let r = BacktestResult {
            total_return: Dec::zero(),
            annualized_return: Dec::zero(),
            max_drawdown: Dec::zero(),
            win_rate: Dec::zero(),
            sharpe_ratio: Dec::zero(),
            total_trades: 0,
            trades: Vec::new(),
            equity_curve: Vec::new(),
            initial_cash,
            final_equity: initial_cash,
        };
        proof {
            assert(trade_models(r.trades@) =~= Seq::<TradeModel>::empty());
            assert(views(r.equity_curve@) =~= Seq::<(int, int)>::empty());
        }
        r
    }

    /// The figures of a run from its trades and equity curve: final equity,
    /// total return, maximum drawdown and win rate. The two floating-point
    /// figures (annualised return and Sharpe ratio) are left at zero.
    /// `Err` where a decimal operation overflows.
    pub fn calculate(initial_cash: Dec, trades: Vec<Trade>, equity_curve: Vec<Dec>) -> (r: Result<BacktestResult, Overflow>)
        ensures
            match calculate_spec(initial_cash@, trade_models(trades@), views(equity_curve@)) {
                None => r is Err,
                Some(m) => r matches Ok(res) && result_model(res) == m
                    && res.annualized_return@ == zero_model() && res.sharpe_ratio@ == zero_model(),
            },
    {
        let n = equity_curve.len();
        let final_equity = if n == 0 {
            initial_cash
        } else {
            equity_curve[n - 1]
        };
        proof {
            if n > 0 {
                assert(views(equity_curve@).last() == final_equity@);
            }
        }
        let total_trades = trades.len();
        let zero = Dec::zero();
        proof {
            lemma_compare_zero(initial_cash@);
        }
        let total_return = if dec_lt(zero, initial_cash) {
            let d = or_overflow(dec_checked_sub(final_equity, initial_cash))?;
            or_overflow(dec_checked_div(d, initial_cash))?
        } else {
            zero
        };
        let max_drawdown = compute_max_drawdown(equity_curve.as_slice())?;
        let win_rate = compute_win_rate(trades.as_slice());
        Ok(BacktestResult {
            total_return,
            annualized_return: zero,
            max_drawdown,
            win_rate,
            sharpe_ratio: zero,
            total_trades,
            trades,
            equity_curve,
            initial_cash,
            final_equity,
        })
    }
}

/// The first line of the trade export.
pub open spec fn csv_header() -> Seq<char> {
    "date,action,price,quantity,amount,pnl\n"@
}

/// How a trade's side is written in the export.
pub open spec fn action_text(a: TradeAction) -> Seq<char> {
    match a {
        TradeAction::Buy => "buy"@,
        TradeAction::Sell => "sell"@,
    }
}

/// One line of the export: date, side, price, quantity, amount and the
/// realised profit (empty on buys), separated by commas.
pub open spec fn trade_row(t: Trade) -> Seq<char> {
    day_text(t.date as int, "%Y-%m-%d"@) + ","@ + action_text(t.action) + ","@ + decimal_text(t.price@) + ","@
        + signed_digits(t.quantity as int) + ","@ + decimal_text(t.amount@) + ","@ + (match t.pnl {
        Some(p) => decimal_text(p@),
        None => Seq::empty(),
    }) + "\n"@
}

/// The export: the header, then one line per trade in order.
pub open spec fn csv_spec(ts: Seq<Trade>) -> Seq<char>
    decreases ts.len(),
{
    if ts.len() == 0 {
        csv_header()
    } else {
        csv_spec(ts.drop_last()) + trade_row(ts.last())
    }
}

/// Every trade's date is one `chrono` can write.
pub open spec fn trade_dates_ok(ts: Seq<Trade>) -> bool {
    forall|i: int| 0 <= i < ts.len() ==> day_in_range(#[trigger] ts[i].date as int)
}

/// Appends one line of the export.
fn push_trade_row(out: &mut Vec<char>, t: &Trade)
    requires
        day_in_range(t.date as int),
    ensures
        final(out)@ == old(out)@ + trade_row(*t),
{
    proof {
        reveal_strlit("%Y-%m-%d");
        reveal_strlit(",");
        reveal_strlit("\n");
    }
    append_chars(out, &to_chars(format_day(t.date, "%Y-%m-%d").as_str()));
    out.push(',');
    match t.action {
        TradeAction::Buy => append_chars(out, &to_chars("buy")),
        TradeAction::Sell => append_chars(out, &to_chars("sell")),
    }
    out.push(',');
    append_chars(out, &to_chars(dec_to_text(t.price).as_str()));
    out.push(',');
    append_chars(out, &i64_digits(t.quantity));
    out.push(',');
    append_chars(out, &to_chars(dec_to_text(t.amount).as_str()));
    out.push(',');
    match t.pnl {
        Some(p) => append_chars(out, &to_chars(dec_to_text(p).as_str())),
        None => {},
    }
    out.push('\n');
    proof {
        assert(final(out)@ =~= old(out)@ + trade_row(*t));
    }
}

impl BacktestResult {
    /// The trades as CSV text, as the export file holds them: a header
    /// line, then per trade its date, side, price, quantity, amount and
    /// realised profit.
    pub fn csv_text(&self) -> (r: String)
        requires
            trade_dates_ok(self.trades@),
        ensures
            r@ == csv_spec(self.trades@),
    {
        let mut out = to_chars("date,action,price,quantity,amount,pnl\n");
        let mut i: usize = 0;
        proof {
            assert(self.trades@.take(0) =~= Seq::<Trade>::empty());
        }
        while i < self.trades.len()
            invariant
                i <= self.trades@.len(),
                trade_dates_ok(self.trades@),
                out@ == csv_spec(self.trades@.take(i as int)),
            decreases self.trades@.len() - i,
        {
            proof {
                assert(self.trades@.take(i as int + 1).drop_last() =~= self.trades@.take(i as int));
                assert(day_in_range(self.trades@[i as int].date as int));
            }
            push_trade_row(&mut out, &self.trades[i]);
            i = i + 1;
        }
        proof {
            assert(self.trades@.take(self.trades@.len() as int) =~= self.trades@);
        }
        from_chars(&out)
    }
}

} // verus!
