//! Element wait engine: the sole polling primitive. It probes the page state
//! at a fixed cadence, starting immediately, until the predicate holds or the
//! time budget is spent.
//!
//! The engine is split in two layers. `wait_decision` is the per-iteration
//! rule: given one probe outcome and the elapsed time it says whether the wait
//! is over. A driver loop around the real browser calls it once per poll.
//! `wait_until` runs the same rule over a pre-recorded sequence of predicate
//! values (poll `k` sees `states[k]`; polls past the end of the sequence see
//! `false`), advancing simulated time by one interval per poll, and so pins
//! down the timing behaviour exactly.

use vstd::prelude::*;

verus! {

/// Result of one probe of the page, as classified by the caller.
#[derive(Clone, Copy, PartialEq, Eq, Structural, Debug)]
pub enum ProbeOutcome {
    /// The wait predicate holds.
    Satisfied,
    /// The predicate does not hold yet; worth another poll.
    NotYet,
    /// The probe failed in a recoverable way (say, a stale element handle);
    /// treated as "not yet satisfied" and retried.
    RetryableError,
    /// The probe failed in a way no retry can mend (disconnected session);
    /// propagated at once instead of burning the whole budget.
    FatalError,
}

/// What the driver loop must do after one probe.
#[derive(Clone, Copy, PartialEq, Eq, Structural, Debug)]
pub enum WaitDecision {
    /// The predicate holds within budget: the wait succeeded.
    Done,
    /// The budget is spent: report a timeout.
    Timeout,
    /// A fatal probe failure: abort the wait immediately.
    Fatal,
    /// Sleep one poll interval and probe again.
    Sleep,
}

/// The per-poll rule. A fatal failure aborts at once; otherwise the budget is
/// checked before the predicate, so a poll that lands past the deadline
/// reports a timeout even if the page happens to be ready.
pub open spec fn wait_decision_spec(
    outcome: ProbeOutcome,
    elapsed_ms: u64,
    timeout_ms: u64,
) -> WaitDecision {
    if outcome is FatalError {
        WaitDecision::Fatal
    } else if elapsed_ms > timeout_ms {
        WaitDecision::Timeout
    } else if outcome is Satisfied {
        WaitDecision::Done
    } else {
        WaitDecision::Sleep
    }
}

/// Decide what one poll of the wait engine does next.
pub fn wait_decision(outcome: ProbeOutcome, elapsed_ms: u64, timeout_ms: u64) -> (d: WaitDecision)
    ensures
        d == wait_decision_spec(outcome, elapsed_ms, timeout_ms),
{
    match outcome {
        ProbeOutcome::FatalError => WaitDecision::Fatal,
        _ => {
            if elapsed_ms > timeout_ms {
                WaitDecision::Timeout
            } else if let ProbeOutcome::Satisfied = outcome {
                WaitDecision::Done
            } else {
                WaitDecision::Sleep
            }
        },
    }
}

/// The predicate value seen by poll `k`: `states[k]` inside the recorded
/// sequence, `false` past its end.
pub open spec fn poll_true(states: Seq<bool>, k: int) -> bool {
    0 <= k < states.len() && states[k]
}

/// True when some poll within the time budget sees the predicate hold.
pub open spec fn wait_hit(states: Seq<bool>, interval_ms: int, timeout_ms: int) -> bool {
    exists|k: int| #[trigger] poll_true(states, k) && k * interval_ms <= timeout_ms
}

/// A successful wait: the predicate held at poll `polls`, `elapsed_ms` into
/// the wait.
#[derive(Clone, Copy, PartialEq, Eq, Structural, Debug)]
pub struct WaitSuccess {
    pub polls: u64,
    pub elapsed_ms: u64,
}

/// A timed-out wait: `polls` polls all saw the predicate fail, and the poll
/// `elapsed_ms` into the wait found the budget spent.
#[derive(Clone, Copy, PartialEq, Eq, Structural, Debug)]
pub struct WaitTimeout {
    pub polls: u64,
    pub elapsed_ms: u64,
}

/// Run the wait rule over a recorded sequence of predicate values.
///
/// Poll `k` happens `k * poll_interval_ms` into the wait (the first poll is
/// immediate) and sees `states[k]`, or `false` past the end of the recording.
///
/// The contract states the two laws of the engine. If the predicate becomes
/// true at some poll within the budget, the wait succeeds at the first such
/// poll — after at most that many polls, each a full interval apart. If it
/// never does, the wait fails with a timeout whose elapsed time exceeds the
/// budget by at most one interval, and never earlier than the budget itself.
pub fn wait_until(states: &Vec<bool>, poll_interval_ms: u64, timeout_ms: u64) -> (r: Result<
    WaitSuccess,
    WaitTimeout,
>)
    requires
        1 <= poll_interval_ms,
        timeout_ms <= u64::MAX - poll_interval_ms,
    ensures
        (r is Ok) == wait_hit(states@, poll_interval_ms as int, timeout_ms as int),
        (r matches Ok(s) ==> {
            &&& poll_true(states@, s.polls as int)
            &&& s.elapsed_ms == s.polls * poll_interval_ms
            &&& s.elapsed_ms <= timeout_ms
            &&& forall|j: int| 0 <= j < s.polls ==> !poll_true(states@, j)
        }),
        (r matches Err(t) ==> {
            &&& timeout_ms < t.elapsed_ms <= timeout_ms + poll_interval_ms
            &&& t.elapsed_ms == t.polls * poll_interval_ms
            &&& forall|k: int|
                0 <= k && k * poll_interval_ms <= timeout_ms ==> !poll_true(states@, k)
        }),
{
    let mut polls: u64 = 0;
    let mut idx: usize = 0;
    let mut elapsed: u64 = 0;
    loop
        invariant
            1 <= poll_interval_ms,
            timeout_ms <= u64::MAX - poll_interval_ms,
            elapsed == polls * poll_interval_ms,
            elapsed <= timeout_ms + poll_interval_ms,
            idx as int == if polls as int <= states@.len() {
                polls as int
            } else {
                states@.len() as int
            },
            forall|j: int| 0 <= j < polls ==> !poll_true(states@, j),
        decreases timeout_ms + poll_interval_ms - elapsed,
    {
        let state_now = idx < states.len() && states[idx];
        let outcome = if state_now {
            ProbeOutcome::Satisfied
        } else {
            ProbeOutcome::NotYet
        };
        match wait_decision(outcome, elapsed, timeout_ms) {
            WaitDecision::Done => {
                proof {
                    assert(poll_true(states@, polls as int) && (polls as int) * poll_interval_ms
                        <= timeout_ms);
                }
                return Ok(WaitSuccess { polls, elapsed_ms: elapsed });
            },
            WaitDecision::Timeout => {
                proof {
                    assert forall|k: int|
                        0 <= k && k * poll_interval_ms <= timeout_ms implies !poll_true(
                        states@,
                        k,
                    ) by {
                        if k >= polls {
                            assert(k * poll_interval_ms >= polls * poll_interval_ms)
                                by (nonlinear_arith)
                                requires
                                    k >= polls as int,
                                    poll_interval_ms >= 1,
                            ;
                        }
                    }
                }
                return Err(WaitTimeout { polls, elapsed_ms: elapsed });
            },
            WaitDecision::Fatal => {
                proof {
                    assert(false);
                }
                return Err(WaitTimeout { polls, elapsed_ms: elapsed });
            },
            WaitDecision::Sleep => {},
        }
        proof {
            assert(polls * poll_interval_ms <= timeout_ms);
            assert(polls as int <= polls as int * poll_interval_ms as int) by (nonlinear_arith)
                requires
                    poll_interval_ms >= 1,
                    polls as int >= 0,
            ;
            assert((polls as int + 1) * poll_interval_ms == polls as int * poll_interval_ms
                + poll_interval_ms) by (nonlinear_arith);
        }
        polls = polls + 1;
        if idx < states.len() {
            idx = idx + 1;
        }
        elapsed = elapsed + poll_interval_ms;
    }
}

} // verus!

