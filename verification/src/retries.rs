use vstd::prelude::*;
use vstd::arithmetic::power2::{pow2, lemma_pow2_adds, lemma_pow2_strictly_increases, lemma2_to64};

verus! {

/// What a response classifier says about one completed attempt.
#[derive(Clone, Debug, PartialEq)]
pub enum RetryAction {
    /// The attempt failed transiently; try again, for the stated reason.
    Retry(String),
    /// The attempt failed terminally; surface the response as it is.
    DontRetry(String),
    /// The attempt succeeded.
    Successful,
}

/// What the retry policy tells the driver to do next.
#[derive(Clone, Copy, Debug, PartialEq, Eq, Structural)]
pub enum RetryDecision {
    /// Sleep this many seconds, then attempt again.
    RetryAfter(u64),
    /// The retry budget is exhausted; surface the last error.
    GiveUp,
    /// The classifier ruled the response terminal; surface it unretried.
    Unretriable,
    /// Done; nothing to retry.
    Success,
}

/// The delay before the attempt after `attempt` retriable failures:
/// the initial backoff doubled per failure, capped.
pub open spec fn spec_backoff_delay(initial: u64, attempt: nat, cap: u64) -> int {
    if initial * pow2(attempt) <= cap {
        initial * pow2(attempt)
    } else {
        cap as int
    }
}

/// Backoff delays never shrink as the attempt counter grows: the doubling
/// sequence is non-decreasing until it reaches the cap and stays there.
pub proof fn lemma_backoff_monotone(initial: u64, a1: nat, a2: nat, cap: u64)
    requires
        a1 <= a2,
    ensures
        spec_backoff_delay(initial, a1, cap) <= spec_backoff_delay(initial, a2, cap),
{
    if a1 < a2 {
        lemma_pow2_strictly_increases(a1, a2);
    }
    assert(initial * pow2(a1) <= initial * pow2(a2)) by (nonlinear_arith)
        requires
            pow2(a1) <= pow2(a2),
            initial >= 0,
    ;
}

/// The capped backoff never exceeds the cap.
pub proof fn lemma_backoff_le_cap(initial: u64, attempt: nat, cap: u64)
    ensures
        0 <= spec_backoff_delay(initial, attempt, cap) <= cap,
{
    vstd::arithmetic::power2::lemma_pow2_pos(attempt);
    assert(initial * pow2(attempt) >= 0) by (nonlinear_arith)
        requires
            initial >= 0,
            pow2(attempt) >= 1,
    ;
}

/// Compute the capped exponential backoff for the given attempt counter.
pub fn backoff_delay(initial: u64, attempt: usize, cap: u64) -> (r: u64)
    ensures
        r == spec_backoff_delay(initial, attempt as nat, cap),
{
    let mut acc: u64 = if initial <= cap {
        initial
    } else {
        cap
    };
    proof {
        lemma2_to64();
        assert(pow2(0) == 1);
    }
    let mut i: usize = 0;
    while i < attempt
        invariant
            0 <= i <= attempt,
            acc == spec_backoff_delay(initial, i as nat, cap),
        decreases attempt - i,
    {
        let ghost prev: int = initial * pow2(i as nat);
        proof {
            lemma_pow2_adds(i as nat, 1);
            lemma2_to64();
            assert(pow2((i + 1) as nat) == 2 * pow2(i as nat));
            assert(initial * pow2((i + 1) as nat) == 2 * (initial * pow2(i as nat)))
                by (nonlinear_arith)
                requires
                    pow2((i + 1) as nat) == 2 * pow2(i as nat),
            ;
        }
        if acc > cap / 2 {
            proof {
                if prev <= cap {
                    assert(acc == prev);
                    assert(2 * prev > cap);
                } else {
                    assert(acc == cap);
                    assert(initial * pow2((i + 1) as nat) >= prev) by (nonlinear_arith)
                        requires
                            initial * pow2((i + 1) as nat) == 2 * prev,
                            prev >= 0,
                    ;
                }
            }
            acc = cap;
        } else {
            proof {
                if prev <= cap {
                    assert(acc == prev);
                    assert(2 * prev <= cap);
                } else {
                    // Only possible when the cap is zero: the saturated value
                    // doubles to zero and stays at the cap.
                    assert(acc == cap);
                    assert(cap == 0);
                    assert(initial * pow2((i + 1) as nat) >= prev) by (nonlinear_arith)
                        requires
                            initial * pow2((i + 1) as nat) == 2 * prev,
                            prev >= 0,
                    ;
                }
            }
            acc = acc * 2;
        }
        i = i + 1;
    }
    acc
}

/// The machine bound on a retry time budget, so that elapsed-time sums
/// stay representable.
pub const RETRY_MAX_DURATION_SECONDS_BOUND: u64 = 0x7fff_ffff_ffff_ffff;

/// The per-request retry policy: a budget of attempts and of wall time,
/// an exponential backoff, and the caller's response classifier.
#[derive(Clone, Copy, Debug)]
pub struct FixedRetryPolicy<L> {
    /// How many retriable failures may be retried.
    pub retry_attempts: usize,
    /// How many have been so far.
    pub attempts_made: usize,
    /// The first backoff, in seconds.
    pub retry_initial_backoff_secs: u64,
    /// The wall-time budget, in seconds; also the cap on a single backoff.
    pub retry_max_duration_secs: u64,
    /// Seconds from the start of the first attempt to the scheduled start
    /// of the next one.
    pub elapsed_secs: u64,
    /// The most recently granted backoff, in seconds.
    pub last_backoff_secs: u64,
    /// The caller's response classifier.
    pub logic: L,
}

impl<L> FixedRetryPolicy<L> {
    /// What construction establishes and every decision preserves. The last
    /// conjunct is the retry time budget: the pipeline never schedules an
    /// attempt later than the budget plus the backoff step that scheduled it.
    pub open spec fn wf(self) -> bool {
        &&& 1 <= self.retry_initial_backoff_secs <= self.retry_max_duration_secs
        &&& self.retry_max_duration_secs <= RETRY_MAX_DURATION_SECONDS_BOUND
        &&& self.attempts_made <= self.retry_attempts
        &&& self.last_backoff_secs <= self.retry_max_duration_secs
        &&& self.elapsed_secs <= self.retry_max_duration_secs + self.last_backoff_secs
    }

    /// A fresh policy for one request: no attempts made, no time spent.
    pub fn new(
        retry_attempts: usize,
        retry_initial_backoff_secs: u64,
        retry_max_duration_secs: u64,
        logic: L,
    ) -> (r: Self)
        requires
            1 <= retry_initial_backoff_secs <= retry_max_duration_secs,
            retry_max_duration_secs <= RETRY_MAX_DURATION_SECONDS_BOUND,
        ensures
            r.wf(),
            r.retry_attempts == retry_attempts,
            r.attempts_made == 0,
            r.retry_initial_backoff_secs == retry_initial_backoff_secs,
            r.retry_max_duration_secs == retry_max_duration_secs,
            r.elapsed_secs == 0,
            r.last_backoff_secs == 0,
            r.logic == logic,
    {
        FixedRetryPolicy {
            retry_attempts,
            attempts_made: 0,
            retry_initial_backoff_secs,
            retry_max_duration_secs,
            elapsed_secs: 0,
            last_backoff_secs: 0,
            logic,
        }
    }

    /// The backoff the policy would grant right now.
    pub open spec fn spec_current_backoff(self) -> int {
        spec_backoff_delay(
            self.retry_initial_backoff_secs,
            self.attempts_made as nat,
            self.retry_max_duration_secs,
        )
    }

    /// Decide what follows one completed attempt, classified by the caller's
    /// `RetryLogic` as `action` and having taken `attempt_duration_secs` of
    /// wall time. A retriable failure is retried after the capped
    /// exponential backoff; the policy gives up once the count of attempts
    /// — this one included — reaches the attempt budget, or once the time
    /// budget is spent; terminal classifications pass through.
    pub fn decide(&mut self, attempt_duration_secs: u64, action: &RetryAction) -> (d:
        RetryDecision)
        requires
            old(self).wf(),
        ensures
            final(self).wf(),
            final(self).retry_attempts == old(self).retry_attempts,
            final(self).retry_initial_backoff_secs == old(self).retry_initial_backoff_secs,
            final(self).retry_max_duration_secs == old(self).retry_max_duration_secs,
            final(self).logic == old(self).logic,
            (action is Successful) ==> d == RetryDecision::Success && *final(self) == *old(self),
            (action is DontRetry) ==> d == RetryDecision::Unretriable && *final(self) == *old(self),
            (action is Retry && old(self).attempts_made + 1 >= old(self).retry_attempts) ==> d
                == RetryDecision::GiveUp && *final(self) == *old(self),
            (action is Retry && old(self).attempts_made + 1 < old(self).retry_attempts && old(
                self,
            ).elapsed_secs + attempt_duration_secs >= old(self).retry_max_duration_secs) ==> d
                == RetryDecision::GiveUp && *final(self) == *old(self),
            (action is Retry && old(self).attempts_made + 1 < old(self).retry_attempts && old(
                self,
            ).elapsed_secs + attempt_duration_secs < old(self).retry_max_duration_secs) ==> {
                &&& d == RetryDecision::RetryAfter(old(self).spec_current_backoff() as u64)
                &&& final(self).attempts_made == old(self).attempts_made + 1
                &&& final(self).elapsed_secs == old(self).elapsed_secs + attempt_duration_secs
                    + old(self).spec_current_backoff()
                &&& final(self).last_backoff_secs == old(self).spec_current_backoff()
            },
    {
        match action {
            RetryAction::Successful => RetryDecision::Success,
            RetryAction::DontRetry(_) => RetryDecision::Unretriable,
            RetryAction::Retry(_) => {
                if self.retry_attempts == 0 || self.attempts_made >= self.retry_attempts - 1 {
                    return RetryDecision::GiveUp;
                }
                if self.elapsed_secs >= self.retry_max_duration_secs || attempt_duration_secs
                    >= self.retry_max_duration_secs - self.elapsed_secs {
                    return RetryDecision::GiveUp;
                }
                let delay: u64 = backoff_delay(
                    self.retry_initial_backoff_secs,
                    self.attempts_made,
                    self.retry_max_duration_secs,
                );
                proof {
                    lemma_backoff_le_cap(
                        self.retry_initial_backoff_secs,
                        self.attempts_made as nat,
                        self.retry_max_duration_secs,
                    );
                }
                self.elapsed_secs = self.elapsed_secs + attempt_duration_secs + delay;
                self.attempts_made = self.attempts_made + 1;
                self.last_backoff_secs = delay;
                RetryDecision::RetryAfter(delay)
            },
        }
    }
}

/// The retry time budget: a well-formed policy never lets the wall-time
/// counter pass the configured maximum by more than the one backoff step
/// that scheduled the final attempt.
pub proof fn lemma_retry_budget<L>(p: FixedRetryPolicy<L>)
    requires
        p.wf(),
    ensures
        p.elapsed_secs <= p.retry_max_duration_secs + p.last_backoff_secs,
        p.elapsed_secs <= 2 * p.retry_max_duration_secs,
{
}

} // verus!
