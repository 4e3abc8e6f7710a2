//! The retry policy: how many attempts a fallible call gets, how long to
//! wait before each, and what each outcome decides.
//!
//! The waiting and the call itself are asynchronous and happen outside the
//! library; the library decides.
use vstd::prelude::*;
use core::time::Duration;
use tokio_retry::strategy::ExponentialBackoff;

verus! {

#[verifier::external_type_specification]
#[verifier::external_body]
pub struct ExExponentialBackoff(ExponentialBackoff);

/// The state of an exponential back-off: the current delay before the
/// factor is applied, the base it is multiplied by after each step, the
/// factor turning it into milliseconds, and the cap on a delay, in
/// nanoseconds, if any.
pub ghost struct BackoffModel {
    pub current: u64,
    pub base: u64,
    pub factor: u64,
    pub max_delay_nanos: Option<nat>,
}

/// The state of tokio-retry's `ExponentialBackoff` (its private fields
/// `current`, `base`, `factor` and `max_delay`).
pub uninterp spec fn backoff_model(backoff: ExponentialBackoff) -> BackoffModel;

/// The length of a duration, in nanoseconds.
pub uninterp spec fn duration_nanos(duration: Duration) -> nat;

/// `a * b`, saturating at `u64::MAX`.
pub open spec fn saturating_mul(a: u64, b: u64) -> u64 {
    if a * b > u64::MAX { u64::MAX } else { (a * b) as u64 }
}

/// Whether the next delay is capped: the uncapped one is longer than the cap.
pub open spec fn backoff_capped(m: BackoffModel) -> bool {
    m.max_delay_nanos matches Some(max) && saturating_mul(m.current, m.factor) * 1_000_000 > max
}

/// The next delay of a back-off, in nanoseconds: `current * factor`
/// milliseconds (saturating), or the cap where that is longer.
pub open spec fn backoff_delay_nanos(m: BackoffModel) -> nat {
    if backoff_capped(m) {
        m.max_delay_nanos->0
    } else {
        (saturating_mul(m.current, m.factor) * 1_000_000) as nat
    }
}

/// The back-off after giving its next delay: once capped it stays as it
/// is; otherwise `current` is multiplied by `base` (saturating).
pub open spec fn backoff_after(m: BackoffModel) -> BackoffModel {
    if backoff_capped(m) {
        m
    } else {
        BackoffModel { current: saturating_mul(m.current, m.base), ..m }
    }
}

/// Calls `Iterator::next` on tokio-retry's `ExponentialBackoff`.
/// Claimed of tokio-retry (strategy.rs): it always gives a delay, of
/// `current * factor` milliseconds (saturating) or the maximum delay where
/// that is longer; in the first case `current` is then multiplied by `base`
/// (saturating), in the second the back-off is left as it is.
#[verifier::external_body]
fn backoff_next(backoff: &mut ExponentialBackoff) -> (r: Option<Duration>)
    ensures
        r matches Some(d) && duration_nanos(d) == backoff_delay_nanos(backoff_model(*old(backoff))),
        backoff_model(*final(backoff)) == backoff_after(backoff_model(*old(backoff))),
{
    backoff.next()
}

/// Errors that know whether retrying them is pointless, or whether the
/// service asked the caller to slow down.
pub trait Abortable {
    /// Retrying cannot help.
    fn abortable(&self) -> bool;

    /// The service rate-limited the call.
    fn rate_limit(&self) -> bool;
}

/// Why a retried call finally failed.
#[derive(Debug, Clone, PartialEq, Eq)]
pub enum RetryError<E> {
    /// The call failed with an error that ends the retrying.
    Aborted(E),
    /// Every allowed attempt failed.
    MaxAttempts,
}

/// What to do after one attempt.
#[derive(Debug, PartialEq, Eq)]
pub enum RetryStep<T, E> {
    /// Stop and hand this result to the caller.
    Finish(Result<T, RetryError<E>>),
    /// Wait this many extra seconds, then go on to the next attempt.
    WaitThenRetry(u64),
    /// Go on to the next attempt.
    Retry,
}

/// How one attempt ended, as the policy sees it.
#[derive(Debug, Clone, Copy, PartialEq, Eq)]
pub enum AttemptOutcome {
    Succeeded,
    Aborted,
    RateLimited,
    Failed,
}

/// The outcome of an attempt with this result and these error properties;
/// an error that is both abortable and rate-limited counts as abortable.
pub open spec fn classify<T, E>(result: Result<T, E>, abortable: bool, rate_limited: bool) -> AttemptOutcome {
    match result {
        Ok(_) => AttemptOutcome::Succeeded,
        Err(_) => if abortable {
            AttemptOutcome::Aborted
        } else if rate_limited {
            AttemptOutcome::RateLimited
        } else {
            AttemptOutcome::Failed
        },
    }
}

/// The default number of attempts.
pub const DEFAULT_MAX_ATTEMPTS: usize = 20;

/// The default extra wait, in seconds, after a rate-limited attempt.
pub const DEFAULT_RATE_LIMIT_WAIT_SECS: u64 = 10;

/// Retry bookkeeping for one retried call: the back-off delays, the number
/// of attempts allowed and made, and the extra wait after rate limiting.
pub struct RetryPolicy {
    backoff: ExponentialBackoff,
    max_attempts: usize,
    rate_limit_wait_secs: u64,
    attempts: usize,
}

impl RetryPolicy {
    /// Attempts started so far.
    pub closed spec fn spec_attempts(&self) -> nat {
        self.attempts as nat
    }

    /// Attempts allowed.
    pub closed spec fn spec_max_attempts(&self) -> nat {
        self.max_attempts as nat
    }

    /// Extra wait after a rate-limited attempt, in seconds.
    pub closed spec fn spec_rate_limit_wait_secs(&self) -> u64 {
        self.rate_limit_wait_secs
    }

    /// The back-off the delays come from.
    pub closed spec fn spec_backoff(&self) -> ExponentialBackoff {
        self.backoff
    }

    /// No more attempts started than allowed; a fresh policy is so, and
    /// `next_delay` keeps it so.
    pub open spec fn wf(&self) -> bool {
        self.spec_attempts() <= self.spec_max_attempts()
    }

    /// A fresh policy over `backoff`: 20 attempts, 10 s extra wait after a
    /// rate-limited attempt, none started.
    pub fn new(backoff: ExponentialBackoff) -> (r: RetryPolicy)
        ensures
            r.spec_backoff() == backoff,
            r.spec_attempts() == 0,
            r.spec_max_attempts() == DEFAULT_MAX_ATTEMPTS,
            r.spec_rate_limit_wait_secs() == DEFAULT_RATE_LIMIT_WAIT_SECS,
            r.wf(),
    {
        RetryPolicy {
            backoff,
            max_attempts: DEFAULT_MAX_ATTEMPTS,
            rate_limit_wait_secs: DEFAULT_RATE_LIMIT_WAIT_SECS,
            attempts: 0,
        }
    }

    /// The same policy allowing `max_attempts` attempts.
    pub fn with_max_attempts(self, max_attempts: usize) -> (r: RetryPolicy)
        ensures
            r.spec_attempts() == self.spec_attempts(),
            r.spec_max_attempts() == max_attempts,
            r.spec_rate_limit_wait_secs() == self.spec_rate_limit_wait_secs(),
            r.spec_backoff() == self.spec_backoff(),
    {
        RetryPolicy { max_attempts, ..self }
    }

    /// Attempts started so far.
    pub fn attempts(&self) -> (r: usize)
        ensures
            r == self.spec_attempts(),
    {
        self.attempts
    }

    /// Attempts allowed.
    pub fn max_attempts(&self) -> (r: usize)
        ensures
            r == self.spec_max_attempts(),
    {
        self.max_attempts
    }

    /// Extra wait after a rate-limited attempt, in seconds.
    pub fn rate_limit_wait_secs(&self) -> (r: u64)
        ensures
            r == self.spec_rate_limit_wait_secs(),
    {
        self.rate_limit_wait_secs
    }

    /// Starts the next attempt: the back-off's next delay, to wait before
    /// making it, or `None` once every allowed attempt has been started,
    /// which ends the retrying with `RetryError::MaxAttempts` and leaves the
    /// back-off as it is.
    pub fn next_delay(&mut self) -> (r: Option<Duration>)
        ensures
            r matches Some(d) ==> duration_nanos(d) == backoff_delay_nanos(backoff_model(old(self).spec_backoff()))
                && backoff_model(final(self).spec_backoff()) == backoff_after(backoff_model(old(self).spec_backoff())),
            r is None ==> final(self).spec_backoff() == old(self).spec_backoff(),
            old(self).wf() ==> final(self).wf(),
            r is Some <==> old(self).spec_attempts() < old(self).spec_max_attempts(),
            final(self).spec_attempts() == if r is Some {
                old(self).spec_attempts() + 1
            } else {
                old(self).spec_attempts()
            },
            final(self).spec_max_attempts() == old(self).spec_max_attempts(),
            final(self).spec_rate_limit_wait_secs() == old(self).spec_rate_limit_wait_secs(),
    {
        if self.attempts < self.max_attempts {
            self.attempts = self.attempts + 1;
            backoff_next(&mut self.backoff)
        } else {
            None
        }
    }

    /// Decides what follows an attempt that gave `result`; `abortable` and
    /// `rate_limited` are what the error (if any) says of itself.
    /// A success finishes at once with the value; an abortable error
    /// finishes at once with `Aborted`; a rate-limited error asks for the
    /// extra wait; any other error asks for the next attempt.
    pub fn on_result<T, E>(&self, result: Result<T, E>, abortable: bool, rate_limited: bool) -> (r: RetryStep<T, E>)
        ensures
            match result {
                Ok(v) => r == RetryStep::<T, E>::Finish(Ok(v)),
                Err(e) => if abortable {
                    r == RetryStep::<T, E>::Finish(Err(RetryError::Aborted(e)))
                } else if rate_limited {
                    r == RetryStep::<T, E>::WaitThenRetry(self.spec_rate_limit_wait_secs())
                } else {
                    r == RetryStep::<T, E>::Retry
                },
            },
            r is Finish <==> (classify(result, abortable, rate_limited) == AttemptOutcome::Succeeded
                || classify(result, abortable, rate_limited) == AttemptOutcome::Aborted),
    {
        match result {
            Ok(v) => RetryStep::Finish(Ok(v)),
            Err(e) => {
                if abortable {
                    RetryStep::Finish(Err(RetryError::Aborted(e)))
                } else if rate_limited {
                    RetryStep::WaitThenRetry(self.rate_limit_wait_secs)
                } else {
                    RetryStep::Retry
                }
            },
        }
    }
}

/// How a whole retry run ends.
pub ghost enum RunEnd {
    /// The attempt with this index succeeded.
    Success(nat),
    /// The attempt with this index failed with an abortable error.
    Aborted(nat),
    /// Every allowed attempt failed.
    MaxAttempts,
}

/// The end of a run in which attempt `started + i` has outcome
/// `outcomes[i]`, `started` attempts having been made already and `max`
/// being allowed; with the number of attempts made in all.
pub open spec fn run_from(started: nat, max: nat, outcomes: Seq<AttemptOutcome>) -> (RunEnd, nat)
    decreases outcomes.len(),
{
    if started >= max || outcomes.len() == 0 {
        (RunEnd::MaxAttempts, started)
    } else {
        match outcomes[0] {
            AttemptOutcome::Succeeded => (RunEnd::Success(started), started + 1),
            AttemptOutcome::Aborted => (RunEnd::Aborted(started), started + 1),
            _ => run_from(started + 1, max, outcomes.drop_first()),
        }
    }
}

/// The index of the first attempt that ends the run (a success or an
/// abortable error), if any.
pub open spec fn first_final(outcomes: Seq<AttemptOutcome>, i: nat) -> bool {
    &&& i < outcomes.len()
    &&& (outcomes[i as int] == AttemptOutcome::Succeeded || outcomes[i as int] == AttemptOutcome::Aborted)
    &&& forall|j: int| 0 <= j < i ==> outcomes[j] != AttemptOutcome::Succeeded && outcomes[j] != AttemptOutcome::Aborted
}

/// A run of a fresh policy makes at most `max` attempts. It ends at the
/// first success or abortable error among the first `max` attempts, after
/// exactly that many attempts; when there is none, it ends with
/// `MaxAttempts` after `max` attempts (given outcomes for all of them).
pub proof fn lemma_run_ends_at_first_final(max: nat, outcomes: Seq<AttemptOutcome>)
    ensures
        run_from(0, max, outcomes).1 <= max,
        forall|i: nat| #[trigger] first_final(outcomes, i) && i < max ==>
            run_from(0, max, outcomes).1 == i + 1 && run_from(0, max, outcomes).0 == (
                if outcomes[i as int] == AttemptOutcome::Succeeded { RunEnd::Success(i) } else { RunEnd::Aborted(i) }),
        (forall|j: int| 0 <= j < max && j < outcomes.len() ==>
            outcomes[j] != AttemptOutcome::Succeeded && outcomes[j] != AttemptOutcome::Aborted)
            && outcomes.len() >= max ==> run_from(0, max, outcomes) == (RunEnd::MaxAttempts, max),
{
    lemma_run_from(0, max, outcomes);
}

proof fn lemma_run_from(started: nat, max: nat, outcomes: Seq<AttemptOutcome>)
    ensures
        started <= max ==> run_from(started, max, outcomes).1 <= max,
        run_from(started, max, outcomes).1 >= started,
        forall|i: nat| #[trigger] first_final(outcomes, i) && started + i < max ==>
            run_from(started, max, outcomes).1 == started + i + 1 && run_from(started, max, outcomes).0 == (
                if outcomes[i as int] == AttemptOutcome::Succeeded { RunEnd::Success(started + i) } else { RunEnd::Aborted(started + i) }),
        (forall|j: int| 0 <= j < max - started && j < outcomes.len() ==>
            outcomes[j] != AttemptOutcome::Succeeded && outcomes[j] != AttemptOutcome::Aborted)
            && started <= max && outcomes.len() >= max - started ==> run_from(started, max, outcomes) == (RunEnd::MaxAttempts, max),
    decreases outcomes.len(),
{
    if started >= max || outcomes.len() == 0 {
    } else {
        let rest = outcomes.drop_first();
        lemma_run_from(started + 1, max, rest);
        assert forall|i: nat| #[trigger] first_final(outcomes, i) && started + i < max implies
            run_from(started, max, outcomes).1 == started + i + 1 && run_from(started, max, outcomes).0 == (
                if outcomes[i as int] == AttemptOutcome::Succeeded { RunEnd::Success(started + i) } else { RunEnd::Aborted(started + i) }) by {
            if i > 0 {
                let k = (i - 1) as nat;
                assert(outcomes[0] != AttemptOutcome::Succeeded && outcomes[0] != AttemptOutcome::Aborted);
                assert forall|j: int| 0 <= j < k implies rest[j] != AttemptOutcome::Succeeded && rest[j] != AttemptOutcome::Aborted by {
                    assert(rest[j] == outcomes[j + 1]);
                }
                assert(first_final(rest, k));
                assert((started + 1) + k == started + i);
            }
        }
        if (forall|j: int| 0 <= j < max - started && j < outcomes.len() ==>
            outcomes[j] != AttemptOutcome::Succeeded && outcomes[j] != AttemptOutcome::Aborted)
            && outcomes.len() >= max - started {
            assert(outcomes[0] != AttemptOutcome::Succeeded && outcomes[0] != AttemptOutcome::Aborted);
            assert forall|j: int| 0 <= j < max - (started + 1) && j < rest.len() implies
                rest[j] != AttemptOutcome::Succeeded && rest[j] != AttemptOutcome::Aborted by {
                assert(rest[j] == outcomes[j + 1]);
            }
        }
    }
}

} // verus!
