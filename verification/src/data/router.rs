//! The provider router's decisions: which providers serve a market, and,
//! after each failed request, whether to retry the same provider (after a
//! wait), move on to the next one, or give up with the last error.

use vstd::prelude::*;
use crate::error::DataError;
use crate::market::{Market, market_name_spec};

verus! {

/// How long to wait before the next attempt.
#[derive(Debug, Clone, Copy, PartialEq, Eq, Structural)]
pub enum Wait {
    Seconds(u64),
    Millis(u64),
}

/// Attempts per provider before moving to the next one.
pub const MAX_RETRIES: u32 = 3;

/// The first back-off delay after a failure, in milliseconds.
pub const FIRST_DELAY_MS: u64 = 100;

/// After attempt `attempt` (counting from 0) failed with `err`: when
/// another attempt on the same provider follows, how long to wait first and
/// the back-off delay to use after that. A rate limit waits the time the
/// provider asked for and keeps the delay; any other failure waits the
/// delay, which then doubles. After the last attempt there is no wait and
/// the delay is kept.
pub open spec fn backoff_spec(attempt: int, max_retries: int, err: DataError, delay_ms: int) -> (Option<Wait>, int) {
    if attempt + 1 < max_retries {
        match err {
            DataError::RateLimited { retry_after } => (Some(Wait::Seconds(retry_after)), delay_ms),
            _ => (Some(Wait::Millis(delay_ms as u64)), 2 * delay_ms),
        }
    } else {
        (None, delay_ms)
    }
}

/// The wait before the next attempt on the same provider and the next
/// back-off delay, as [`backoff_spec`] says.
pub fn backoff(attempt: u32, max_retries: u32, err: &DataError, delay_ms: u64) -> (r: (Option<Wait>, u64))
    requires
        delay_ms <= u64::MAX / 2,
    ensures
        r.0 == backoff_spec(attempt as int, max_retries as int, *err, delay_ms as int).0,
        r.1 as int == backoff_spec(attempt as int, max_retries as int, *err, delay_ms as int).1,
{
    if (attempt as u64) + 1 < max_retries as u64 {
        match err {
            DataError::RateLimited { retry_after } => (Some(Wait::Seconds(*retry_after)), delay_ms),
            _ => (Some(Wait::Millis(delay_ms)), 2 * delay_ms),
        }
    } else {
        (None, delay_ms)
    }
}

/// The indices of the providers that serve the market, in order, from
/// each provider's answer.
pub open spec fn supporting_spec(supports: Seq<bool>) -> Seq<usize>
    decreases supports.len(),
{
    if supports.len() == 0 {
        Seq::empty()
    } else {
        let rest = supporting_spec(supports.drop_last());
        if supports.last() {
            rest.push((supports.len() - 1) as usize)
        } else {
            rest
        }
    }
}

/// The candidates for a request: the indices of the providers that said
/// they serve the market, in the order the providers were given.
pub fn providers_for(supports: &Vec<bool>) -> (r: Vec<usize>)
    ensures
        r@ == supporting_spec(supports@),
        forall|i: int| 0 <= i < r@.len() ==> (#[trigger] r@[i]) < supports@.len() && supports@[r@[i] as int],
{
    let mut out: Vec<usize> = Vec::new();
    let mut i: usize = 0;
    while i < supports.len()
        invariant
            i <= supports@.len(),
            out@ == supporting_spec(supports@.take(i as int)),
            forall|j: int| 0 <= j < out@.len() ==> (#[trigger] out@[j]) < i && supports@[out@[j] as int],
        decreases supports@.len() - i,
    {
        proof {
            assert(supports@.take(i as int + 1).drop_last() =~= supports@.take(i as int));
        }
        if supports[i] {
            out.push(i);
        }
        i = i + 1;
    }
    proof {
        assert(supports@.take(supports@.len() as int) =~= supports@);
    }
    out
}

/// What the router does next.
#[derive(Debug)]
pub enum RouterStep {
    /// Send the request to candidate `candidate` (an index into the
    /// candidates), after the wait if there is one.
    Try { candidate: usize, wait: Option<Wait> },
    /// Stop, failing with this error.
    Fail(DataError),
}

/// Where a quote request stands: the candidate being asked, how many
/// attempts it has had before this one, and the current back-off delay.
#[derive(Debug, Clone, Copy, PartialEq, Eq, Structural)]
pub struct QuoteAttempts {
    pub candidate: usize,
    pub attempt: u32,
    pub delay_ms: u64,
}

/// `2` to the power `n`.
pub open spec fn doubling(n: nat) -> nat
    decreases n,
{
    if n == 0 {
        1
    } else {
        2 * doubling((n - 1) as nat)
    }
}

/// Powers of two grow with the exponent.
proof fn lemma_doubling_monotone(a: nat, b: nat)
    requires
        a <= b,
    ensures
        doubling(a) <= doubling(b),
    decreases b,
{
    if a < b {
        lemma_doubling_monotone(a, (b - 1) as nat);
    }
}

/// The largest number of attempts per provider the router is set up with.
pub const RETRY_LIMIT: u32 = 32;

/// A quote request in progress: the candidate and attempt are in range,
/// and the delay has at most doubled once per attempt so far.
pub open spec fn attempts_ok(st: QuoteAttempts, candidates: nat, max_retries: nat) -> bool {
    &&& st.candidate < candidates
    &&& st.attempt < max_retries
    &&& max_retries <= RETRY_LIMIT
    &&& st.delay_ms <= FIRST_DELAY_MS * doubling(st.attempt as nat)
}

/// The first step of a quote request: no candidate fails with
/// "market not supported" (naming the market); no attempt allowed fails with
/// "no providers tried"; otherwise the first candidate is asked at once,
/// with the first back-off delay.
pub fn quote_first_step(candidates: usize, max_retries: u32, market: &Market) -> (r: (RouterStep, QuoteAttempts))
    requires
        max_retries <= RETRY_LIMIT,
    ensures
        candidates == 0 ==> (r.0 matches RouterStep::Fail(DataError::MarketNotSupported { market: m }) && m@
            == market_name_spec(*market)),
        candidates > 0 && max_retries == 0 ==> (r.0 matches RouterStep::Fail(DataError::Network(m)) && m@
            == "no providers tried"@),
        candidates > 0 && max_retries > 0 ==> {
            &&& r.0 == RouterStep::Try { candidate: 0, wait: None }
            &&& r.1 == QuoteAttempts { candidate: 0, attempt: 0, delay_ms: FIRST_DELAY_MS }
            &&& attempts_ok(r.1, candidates as nat, max_retries as nat)
        },
{
    let start = QuoteAttempts { candidate: 0, attempt: 0, delay_ms: FIRST_DELAY_MS };
    if candidates == 0 {
        (RouterStep::Fail(DataError::MarketNotSupported { market: market.display_name() }), start)
    } else if max_retries == 0 {
        (RouterStep::Fail(DataError::Network("no providers tried".to_owned())), start)
    } else {
        (RouterStep::Try { candidate: 0, wait: None }, start)
    }
}

/// The step after a failed attempt, as the router takes it: another
/// attempt on the same candidate after the back-off wait while attempts
/// remain; else the next candidate at once with a fresh delay; else failure
/// with this (the last) error.
pub open spec fn after_failure_spec(st: QuoteAttempts, candidates: nat, max_retries: nat, err: DataError) -> (
    RouterStep,
    QuoteAttempts,
) {
    let (wait, next_delay) = backoff_spec(st.attempt as int, max_retries as int, err, st.delay_ms as int);
    match wait {
        Some(w) => (
            RouterStep::Try { candidate: st.candidate, wait: Some(w) },
            QuoteAttempts { candidate: st.candidate, attempt: (st.attempt + 1) as u32, delay_ms: next_delay as u64 },
        ),
        None => if st.candidate + 1 < candidates {
            (
                RouterStep::Try { candidate: (st.candidate + 1) as usize, wait: None },
                QuoteAttempts { candidate: (st.candidate + 1) as usize, attempt: 0, delay_ms: FIRST_DELAY_MS },
            )
        } else {
            (RouterStep::Fail(err), st)
        },
    }
}

/// The attempts a quote request can still make, counting the one just
/// made: those left on this candidate and all of those after it.
pub open spec fn attempts_left(st: QuoteAttempts, candidates: nat, max_retries: nat) -> int {
    (candidates - st.candidate - 1) * max_retries + (max_retries - st.attempt)
}

/// The router's step after attempt `st` failed with `err`.
pub fn quote_after_failure(st: QuoteAttempts, candidates: usize, max_retries: u32, err: DataError) -> (r: (
    RouterStep,
    QuoteAttempts,
))
    requires
        attempts_ok(st, candidates as nat, max_retries as nat),
    ensures
        r == after_failure_spec(st, candidates as nat, max_retries as nat, err),
        r.0 is Try ==> attempts_ok(r.1, candidates as nat, max_retries as nat),
{
    proof {
        lemma_doubling_monotone(st.attempt as nat, 31);
        reveal_with_fuel(doubling, 32);
        assert(doubling(31) == 0x8000_0000);
    }
    let (wait, next_delay) = backoff(st.attempt, max_retries, &err, st.delay_ms);
    match wait {
        Some(w) => {
            let next = QuoteAttempts { candidate: st.candidate, attempt: st.attempt + 1, delay_ms: next_delay };
            (RouterStep::Try { candidate: st.candidate, wait: Some(w) }, next)
        },
        None => {
            if st.candidate + 1 < candidates {
                let next = QuoteAttempts { candidate: st.candidate + 1, attempt: 0, delay_ms: FIRST_DELAY_MS };
                (RouterStep::Try { candidate: st.candidate + 1, wait: None }, next)
            } else {
                (RouterStep::Fail(err), st)
            }
        },
    }
}

/// Every retry or move to another candidate uses up one of the attempts a
/// request has left, so a quote request makes at most
/// `candidates * max_retries` attempts before it fails.
pub proof fn lemma_quote_attempts_bounded(st: QuoteAttempts, candidates: usize, max_retries: u32, err: DataError)
    requires
        attempts_ok(st, candidates as nat, max_retries as nat),
    ensures
        attempts_left(st, candidates as nat, max_retries as nat) <= candidates * max_retries,
        attempts_left(st, candidates as nat, max_retries as nat) >= 1,
        after_failure_spec(st, candidates as nat, max_retries as nat, err).0 is Try ==> 0 < attempts_left(
            after_failure_spec(st, candidates as nat, max_retries as nat, err).1,
            candidates as nat,
            max_retries as nat,
        ) < attempts_left(st, candidates as nat, max_retries as nat),
{
    assert((candidates - st.candidate - 1) * max_retries + max_retries == (candidates - st.candidate) * max_retries)
        by (nonlinear_arith);
    assert((candidates - st.candidate) * max_retries <= candidates * max_retries) by (nonlinear_arith)
        requires
            st.candidate >= 0,
            max_retries >= 0,
    ;
    assert(0 <= (candidates - st.candidate - 1) * max_retries) by (nonlinear_arith)
        requires
            st.candidate < candidates,
            max_retries >= 0,
    ;
    assert((candidates - (st.candidate + 1) - 1) * max_retries + max_retries == (candidates - st.candidate - 1)
        * max_retries) by (nonlinear_arith);
    let r = after_failure_spec(st, candidates as nat, max_retries as nat, err);
    if r.0 is Try {
        if st.attempt + 1 < max_retries {
            assert(r.1.candidate == st.candidate && r.1.attempt == st.attempt + 1);
        } else {
            assert(r.1.candidate == st.candidate + 1 && r.1.attempt == 0);
            assert(attempts_left(r.1, candidates as nat, max_retries as nat) == (candidates - st.candidate - 1) * max_retries);
        }
    }
}

/// A failed request never ends in a different error than the last one a
/// provider gave, and a rate limit waits exactly the time asked for.
pub proof fn lemma_failure_reports_last_error(st: QuoteAttempts, candidates: nat, max_retries: nat, err: DataError)
    requires
        attempts_ok(st, candidates, max_retries),
    ensures
        (after_failure_spec(st, candidates, max_retries, err).0 matches RouterStep::Fail(e) ==> e == err),
        (err matches DataError::RateLimited { retry_after } ==> (st.attempt + 1 < max_retries ==> after_failure_spec(
            st,
            candidates,
            max_retries,
            err,
        ).0 == (RouterStep::Try { candidate: st.candidate, wait: Some(Wait::Seconds(retry_after)) }))),
{
}

/// The candidate to ask for bars next: the first one at the start
/// (`None`), else the one after the candidate that just failed, while there
/// is one.
pub open spec fn ohlcv_next_spec(candidate: Option<usize>, candidates: nat) -> Option<usize> {
    let next: int = match candidate {
        None => 0,
        Some(c) => c + 1,
    };
    if next < candidates {
        Some(next as usize)
    } else {
        None
    }
}

/// The step of a bar request at its start (`None`) or after candidate
/// `candidate` failed: the next candidate, at once, or failure with "all
/// providers failed for OHLCV".
pub fn ohlcv_next_step(candidate: Option<usize>, candidates: usize) -> (r: RouterStep)
    ensures
        (ohlcv_next_spec(candidate, candidates as nat) matches Some(c) ==> r == (RouterStep::Try {
            candidate: c,
            wait: None,
        })),
        (ohlcv_next_spec(candidate, candidates as nat) is None ==> (r matches RouterStep::Fail(DataError::Network(m))
            && m@ == "all providers failed for OHLCV"@)),
{
    let next: usize = match candidate {
        None => 0,
        Some(c) => if c < candidates { c + 1 } else { candidates },
    };
    if next < candidates {
        RouterStep::Try { candidate: next, wait: None }
    } else {
        RouterStep::Fail(DataError::Network("all providers failed for OHLCV".to_owned()))
    }
}

} // verus!
