//! Technical indicators over closing prices.

use vstd::prelude::*;
use crate::decimal::{
    Dec, dec_add, dec_div, decimal_quotient, decimal_sum, int_model, lemma_dec_scale,
    lemma_mag_bounds, lemma_mag_int, lemma_pow10_pos, mag, max_mantissa, pow10, quotient_bound, zero_model,
};
use crate::ohlcv::OHLCV;

verus! {

broadcast use lemma_dec_scale;

/// Sum of the closes of `s`, added left to right from zero.
pub open spec fn close_sum(s: Seq<OHLCV>) -> (int, int)
    decreases s.len(),
{
    if s.len() == 0 {
        zero_model()
    } else {
        decimal_sum(close_sum(s.drop_last()), s.last().close@)
    }
}

/// Bound on the integer parts met while summing the closes of `s`.
pub open spec fn close_bound(s: Seq<OHLCV>) -> int
    decreases s.len(),
{
    if s.len() == 0 {
        0
    } else {
        close_bound(s.drop_last()) + mag(s.last().close@) + 2
    }
}

/// Whether the closes of `data` are small enough to be summed as a whole:
/// their running bound stays below the largest mantissa. Every moving-average
/// window of such data fits too (`lemma_closes_fit_windows`).
pub fn closes_fit(data: &[OHLCV]) -> (r: bool)
    ensures
        r == (close_bound(data@) + 4 < max_mantissa()),
{
    let mut total: u128 = 0;
    let mut i: usize = 0;
    while i < data.len()
        invariant
            i <= data@.len(),
            total == close_bound(data@.take(i as int)),
            total + 4 < max_mantissa(),
        decreases data@.len() - i,
    {
        proof {
            assert(data@.take(i as int + 1).drop_last() =~= data@.take(i as int));
        }
        let m = data[i].close.magnitude();
        data[i].close.limits();
        proof {
            let d = data@[i as int].close@;
            lemma_mag_bounds(d);
            lemma_pow10_pos(d.1 as nat);
            assert(mag(d) <= mag(d) * pow10(d.1 as nat)) by (nonlinear_arith)
                requires
                    mag(d) >= 0,
                    pow10(d.1 as nat) >= 1,
            ;
        }
        let room: u128 = 79228162514264337593543950335u128 - total;
        proof {
            assert(data@.take(i as int + 1).last() == data@[i as int]);
            assert(close_bound(data@.take(i as int + 1)) == total + m + 2);
        }
        if m + 6 >= room {
            proof {
                lemma_close_bound_concat(data@.take(i as int + 1), data@.skip(i as int + 1));
                lemma_close_bound_concat(data@.skip(i as int + 1), Seq::<OHLCV>::empty());
                assert(data@.take(i as int + 1) + data@.skip(i as int + 1) =~= data@);
            }
            return false;
        }
        total = total + m + 2;
        i = i + 1;
    }
    proof {
        assert(data@.take(data@.len() as int) =~= data@);
    }
    true
}

/// The simple moving average at index `i`: `None` before a full window,
/// else the window's close sum divided by `period`.
pub open spec fn sma_at(data: Seq<OHLCV>, period: nat, i: int) -> Option<(int, int)> {
    if period == 0 || i + 1 < period {
        None
    } else {
        Some(decimal_quotient(close_sum(data.subrange(i + 1 - period, i + 1)), int_model(period as int)))
    }
}

/// The bound met while summing the `period`-bar window of `data` that ends
/// at index `i`.
pub open spec fn window_bound(data: Seq<OHLCV>, period: nat, i: int) -> int {
    close_bound(data.subrange(i + 1 - period, i + 1))
}

/// Every full `period`-bar window of `data` can be summed, and its sum
/// divided, within the 96-bit range.
pub open spec fn windows_fit(data: Seq<OHLCV>, period: nat) -> bool {
    forall|i: int| 0 < period && period - 1 <= i < data.len() ==> #[trigger] window_bound(data, period, i) + 4 < max_mantissa()
}

/// Closes that fit as a whole fit in every window.
pub proof fn lemma_closes_fit_windows(data: Seq<OHLCV>, period: nat)
    requires
        close_bound(data) + 4 < max_mantissa(),
    ensures
        windows_fit(data, period),
{
    assert forall|i: int| 0 < period && period - 1 <= i < data.len() implies #[trigger] window_bound(data, period, i) + 4 < max_mantissa() by {
        lemma_close_bound_window(data, i + 1 - period, i + 1);
    }
}

/// The view of an optional decimal.
pub open spec fn opt_view(o: Option<Dec>) -> Option<(int, int)> {
    match o {
        Some(d) => Some(d@),
        None => None,
    }
}

/// `close_bound` adds up over concatenation and is not negative.
pub proof fn lemma_close_bound_concat(a: Seq<OHLCV>, b: Seq<OHLCV>)
    ensures
        close_bound(a + b) == close_bound(a) + close_bound(b),
        close_bound(a) >= 0,
    decreases b.len(), a.len(),
{
    if b.len() == 0 {
        assert(a + b =~= a);
        if a.len() > 0 {
            lemma_close_bound_concat(a.drop_last(), b);
            lemma_mag_bounds(a.last().close@);
        }
    } else {
        lemma_close_bound_concat(a, b.drop_last());
        assert((a + b).drop_last() =~= a + b.drop_last());
        lemma_mag_bounds(b.last().close@);
    }
}

/// A window's bound is at most the bound of the whole sequence.
pub proof fn lemma_close_bound_window(s: Seq<OHLCV>, lo: int, hi: int)
    requires
        0 <= lo <= hi <= s.len(),
    ensures
        0 <= close_bound(s.subrange(lo, hi)) <= close_bound(s),
{
    lemma_close_bound_concat(s.subrange(0, lo), s.subrange(lo, hi));
    lemma_close_bound_concat(s.subrange(0, lo) + s.subrange(lo, hi), s.subrange(hi, s.len() as int));
    lemma_close_bound_concat(s.subrange(lo, hi), Seq::empty());
    lemma_close_bound_concat(s.subrange(hi, s.len() as int), Seq::empty());
    assert(s.subrange(0, lo) + s.subrange(lo, hi) + s.subrange(hi, s.len() as int) =~= s);
}

/// Sum of the closes of `data[lo..hi]`.
fn window_close_sum(data: &[OHLCV], lo: usize, hi: usize) -> (r: Dec)
    requires
        lo <= hi <= data@.len(),
        close_bound(data@.subrange(lo as int, hi as int)) < max_mantissa(),
    ensures
        r@ == close_sum(data@.subrange(lo as int, hi as int)),
        mag(r@) <= close_bound(data@.subrange(lo as int, hi as int)),
{
    let mut acc = Dec::zero();
    let mut j: usize = lo;
    proof {
        lemma_mag_int(0);
        assert(data@.subrange(lo as int, lo as int) =~= Seq::<OHLCV>::empty());
    }
    while j < hi
        invariant
            lo <= j <= hi <= data@.len(),
            close_bound(data@.subrange(lo as int, hi as int)) < max_mantissa(),
            acc@ == close_sum(data@.subrange(lo as int, j as int)),
            mag(acc@) <= close_bound(data@.subrange(lo as int, j as int)),
        decreases hi - j,
    {
        proof {
            let w = data@.subrange(lo as int, j as int + 1);
            assert(w.drop_last() =~= data@.subrange(lo as int, j as int));
            assert(w.last() == data@[j as int]);
            lemma_close_bound_window(data@.subrange(lo as int, hi as int), 0, j - lo + 1);
            assert(data@.subrange(lo as int, hi as int).subrange(0, j - lo + 1) =~= w);
        }
        acc = dec_add(acc, data[j].close);
        j = j + 1;
    }
    acc
}

/// Simple moving average of the closes, one entry per bar: `None` for the
/// first `period - 1` bars (and everywhere when `period` is 0), else the mean
/// close of the last `period` bars. `data` is in ascending time order.
pub fn sma(data: &[OHLCV], period: usize) -> (r: Vec<Option<Dec>>)
    requires
        windows_fit(data@, period as nat),
    ensures
        r@.len() == data@.len(),
        forall|i: int| 0 <= i < data@.len() ==> #[trigger] opt_view(r@[i]) == sma_at(data@, period as nat, i),
{
    let n = data.len();
    let mut out: Vec<Option<Dec>> = Vec::new();
    if period == 0 || n == 0 {
        let mut k: usize = 0;
        while k < n
            invariant
                k <= n == data@.len(),
                period == 0 || n == 0,
                out@.len() == k,
                forall|i: int| 0 <= i < k ==> #[trigger] opt_view(out@[i]) == sma_at(data@, period as nat, i),
            decreases n - k,
        {
            out.push(None);
            k = k + 1;
        }
        return out;
    }
    let mut i: usize = 0;
    while i < n
        invariant
            n == data@.len(),
            period >= 1,
            i <= n,
            windows_fit(data@, period as nat),
            out@.len() == i,
            forall|k: int| 0 <= k < i ==> #[trigger] opt_view(out@[k]) == sma_at(data@, period as nat, k),
        decreases n - i,
    {
        if i + 1 < period {
            out.push(None);
        } else {
            let lo = i + 1 - period;
            proof {
                assert(window_bound(data@, period as nat, i as int) + 4 < max_mantissa());
            }
            let s = window_close_sum(data, lo, i + 1);
            let d = Dec::from_usize(period);
            proof {
                lemma_mag_bounds(s@);
                assert(quotient_bound(s@, d@) <= mag(s@) + 1) by {
                    lemma_mag_int(period as int);
                    crate::decimal::lemma_quotient_bound_le(s@, d@, mag(s@));
                    let b = mag(s@);
                    let p = period as int;
                    assert(crate::decimal::pow10(0) == 1);
                    assert((b + 1) * crate::decimal::pow10(0) == b + 1);
                    assert(crate::decimal::abs(d@.0) == p);
                    assert((b + 1) / p <= b + 1) by (nonlinear_arith)
                        requires
                            b >= 0,
                            p >= 1,
                    ;
                };
            }
            let v = dec_div(s, d);
            out.push(Some(v));
        }
        i = i + 1;
    }
    out
}

} // verus!
