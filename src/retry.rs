//! The retry controller: the modem sometimes serves its login page in place of
//! the status page, so an attempt that fetched the wrong page is run again, up
//! to a bound. No other failure is retried.

use crate::fetch::FetchError;
use crate::page::{ExtractionError, StartupProcedure};
use vstd::prelude::*;

verus! {

/// Retries allowed after the first attempt, unless configured otherwise.
pub const DEFAULT_MAX_RETRIES: u32 = 15;

/// What to do after an attempt.
#[derive(Debug)]
pub enum Verdict {
    /// Run another attempt.
    Retry,
    Succeeded(StartupProcedure),
    /// The attempt failed in a way that another would not mend.
    Failed(FetchError),
    /// Every attempt fetched the wrong page; the last one's error.
    Exhausted(ExtractionError),
}

/// Counts the attempts made; `attempts` of them have ended.
#[derive(Debug)]
pub struct RetryController {
    pub max_retries: u32,
    pub attempts: u64,
}

/// The verdict on `outcome`, the outcome of the attempt that follows `attempts`
/// ended ones, with at most `max_retries` retries.
pub open spec fn decide(attempts: nat, max_retries: nat, outcome: Result<StartupProcedure, FetchError>) -> Verdict {
    match outcome {
        Ok(p) => Verdict::Succeeded(p),
        Err(FetchError::Extraction(e)) => if attempts < max_retries {
            Verdict::Retry
        } else {
            Verdict::Exhausted(e)
        },
        Err(e) => Verdict::Failed(e),
    }
}

/// Feeds `outcomes` to a controller that has seen `attempts` attempts, one at a
/// time, while its verdict is `Retry`: the number of attempts it has seen at the
/// end, and its last verdict (`Retry` where the outcomes ran out first).
pub open spec fn run(attempts: nat, max_retries: nat, outcomes: Seq<Result<StartupProcedure, FetchError>>) -> (nat, Verdict)
    decreases outcomes.len(),
{
    if outcomes.len() == 0 {
        (attempts, Verdict::Retry)
    } else {
        let v = decide(attempts, max_retries, outcomes[0]);
        if v is Retry {
            run(attempts + 1, max_retries, outcomes.drop_first())
        } else {
            (attempts + 1, v)
        }
    }
}

impl RetryController {
    /// The controller still takes outcomes: it has not used more than its retries.
    pub open spec fn attempting(&self) -> bool {
        self.attempts <= self.max_retries
    }

    pub fn new(max_retries: u32) -> (r: RetryController)
        ensures
            r.max_retries == max_retries,
            r.attempts == 0,
            r.attempting(),
    {
        RetryController { max_retries, attempts: 0 }
    }

    /// Takes the outcome of the attempt just ended and says what comes next.
    pub fn on_outcome(&mut self, outcome: Result<StartupProcedure, FetchError>) -> (v: Verdict)
        requires
            old(self).attempting(),
        ensures
            v == decide(old(self).attempts as nat, old(self).max_retries as nat, outcome),
            final(self).attempts == old(self).attempts + 1,
            final(self).max_retries == old(self).max_retries,
            v is Retry ==> final(self).attempting(),
    {
        self.attempts = self.attempts + 1;
        match outcome {
            Ok(p) => Verdict::Succeeded(p),
            Err(FetchError::Extraction(e)) => if self.attempts <= self.max_retries as u64 {
                Verdict::Retry
            } else {
                Verdict::Exhausted(e)
            },
            Err(e) => Verdict::Failed(e),
        }
    }
}

/// Where every attempt fetches the wrong page, the controller lets exactly
/// `max_retries + 1` attempts run, then reports `Exhausted` with the error of the
/// last one.
pub proof fn retries_are_bounded(max_retries: nat, outcomes: Seq<Result<StartupProcedure, FetchError>>)
    requires
        outcomes.len() > max_retries,
        forall|i: int| 0 <= i < outcomes.len() ==> (#[trigger] outcomes[i]) matches Err(
            FetchError::Extraction(_),
        ),
    ensures
        run(0, max_retries, outcomes).0 == max_retries + 1,
        run(0, max_retries, outcomes).1 matches Verdict::Exhausted(e) && outcomes[max_retries as int]
            == Err::<StartupProcedure, FetchError>(FetchError::Extraction(e)),
{
    bounded_from(0, max_retries, outcomes);
}

proof fn bounded_from(a: nat, max_retries: nat, outcomes: Seq<Result<StartupProcedure, FetchError>>)
    requires
        a <= max_retries,
        outcomes.len() > max_retries - a,
        forall|i: int| 0 <= i < outcomes.len() ==> (#[trigger] outcomes[i]) matches Err(
            FetchError::Extraction(_),
        ),
    ensures
        run(a, max_retries, outcomes).0 == max_retries + 1,
        run(a, max_retries, outcomes).1 matches Verdict::Exhausted(e) && outcomes[max_retries - a]
            == Err::<StartupProcedure, FetchError>(FetchError::Extraction(e)),
    decreases max_retries - a,
{
    assert(outcomes[0] matches Err(FetchError::Extraction(_)));
    if a < max_retries {
        let rest = outcomes.drop_first();
        assert forall|i: int| 0 <= i < rest.len() implies (#[trigger] rest[i]) matches Err(
            FetchError::Extraction(_),
        ) by {
            assert(rest[i] == outcomes[i + 1]);
        }
        bounded_from(a + 1, max_retries, rest);
        assert(rest[max_retries - (a + 1)] == outcomes[max_retries - a]);
    }
}

/// A failure other than a wrong page ends the run at the first attempt, with
/// that failure: it is never retried.
pub proof fn other_failures_are_not_retried(max_retries: nat, outcomes: Seq<Result<StartupProcedure, FetchError>>)
    requires
        outcomes.len() > 0,
        outcomes[0] matches Err(e) && !(e is Extraction),
    ensures
        run(0, max_retries, outcomes).0 == 1,
        outcomes[0] matches Err(e) && run(0, max_retries, outcomes).1 == Verdict::Failed(e),
{
}

/// A success ends the run at once with the procedure that came back.
pub proof fn success_ends_the_run(attempts: nat, max_retries: nat, outcomes: Seq<Result<StartupProcedure, FetchError>>)
    requires
        outcomes.len() > 0,
        outcomes[0] is Ok,
    ensures
        run(attempts, max_retries, outcomes).0 == attempts + 1,
        outcomes[0] matches Ok(p) && run(attempts, max_retries, outcomes).1 == Verdict::Succeeded(p),
{
}

} // verus!
