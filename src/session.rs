//! One health check: fetch attempts under the retry controller, run as a state
//! machine. The caller sends each request that comes out and hands back what
//! came back, until the check finishes.

use crate::config::{ConfigError, ModemConfig};
use crate::fetch::{
    attempt_begin, attempt_step, begin_ok, step_ok, AttemptStep, FetchError, Reply, Request, Stage,
};
use crate::page::{ExtractionError, StartupProcedure};
use crate::retry::{decide, RetryController, Verdict};
use vstd::prelude::*;

verus! {

/// Why a health check failed.
#[derive(Debug)]
pub enum CheckError {
    /// An attempt failed in a way that is not retried.
    Failed(FetchError),
    /// Every attempt fetched the wrong page; the last one's error.
    Exhausted(ExtractionError),
}

/// A health check under way: the stage of the current attempt, and the
/// controller that counts the attempts.
#[derive(Debug)]
pub struct HealthCheck {
    pub stage: Stage,
    pub retry: RetryController,
}

#[derive(Debug)]
pub enum Progress {
    /// Send the request, then hand its reply to `on_reply` of the check.
    Send(HealthCheck, Request),
    Finish(Result<StartupProcedure, CheckError>),
}

/// The progress `r` of a check whose controller is `retry`, after an attempt began
/// with `b`.
pub open spec fn started(retry: RetryController, b: AttemptStep, r: Progress) -> bool {
    match b {
        AttemptStep::Continue(st, req) => r == Progress::Send(HealthCheck { stage: st, retry }, req),
        AttemptStep::Done(Ok(p)) => r == Progress::Finish(Ok(p)),
        AttemptStep::Done(Err(e)) => r == Progress::Finish(Err(CheckError::Failed(e))),
    }
}

/// The progress `r` of a check whose controller is `retry`, after its attempt
/// made the step `s`.
pub open spec fn follows(cfg: ModemConfig, retry: RetryController, s: AttemptStep, r: Progress) -> bool {
    match s {
        AttemptStep::Continue(st, req) => r == Progress::Send(HealthCheck { stage: st, retry }, req),
        AttemptStep::Done(outcome) => match decide(
            retry.attempts as nat,
            retry.max_retries as nat,
            outcome,
        ) {
            Verdict::Succeeded(p) => r == Progress::Finish(Ok(p)),
            Verdict::Failed(e) => r == Progress::Finish(Err(CheckError::Failed(e))),
            Verdict::Exhausted(e) => r == Progress::Finish(Err(CheckError::Exhausted(e))),
            Verdict::Retry => exists|b: AttemptStep|
                #[trigger] begin_ok(cfg, b) && started(
                    RetryController {
                        max_retries: retry.max_retries,
                        attempts: (retry.attempts + 1) as u64,
                    },
                    b,
                    r,
                ),
        },
    }
}

pub open spec fn running(r: Progress) -> bool {
    r matches Progress::Send(h, _) ==> h.retry.attempting()
}

impl HealthCheck {
    /// Starts a check that retries a wrong page at most `max_retries` times.
    /// Without a password it finishes at once, having sent nothing.
    pub fn start(cfg: &ModemConfig, max_retries: u32) -> (r: Progress)
        ensures
            exists|b: AttemptStep|
                #[trigger] begin_ok(*cfg, b) && started(
                    RetryController { max_retries, attempts: 0 },
                    b,
                    r,
                ),
            cfg.password is None ==> r == Progress::Finish(
                Err(CheckError::Failed(FetchError::Config(ConfigError::MissingPassword))),
            ),
            running(r),
    {
        let retry = RetryController::new(max_retries);
        let b = attempt_begin(cfg);
        let ghost b0 = b;
        let r = Self::resume(retry, b);
        assert(begin_ok(*cfg, b0) && started(RetryController { max_retries, attempts: 0 }, b0, r));
        r
    }

    fn resume(retry: RetryController, b: AttemptStep) -> (r: Progress)
        requires
            retry.attempting(),
        ensures
            started(retry, b, r),
            running(r),
    {
        match b {
            AttemptStep::Continue(stage, req) => Progress::Send(HealthCheck { stage, retry }, req),
            AttemptStep::Done(Ok(p)) => Progress::Finish(Ok(p)),
            AttemptStep::Done(Err(e)) => Progress::Finish(Err(CheckError::Failed(e))),
        }
    }

    /// Goes on once the reply to the last request has come back. A wrong page is
    /// retried while retries are left; the logout's reply, whatever it is, finishes
    /// the check with the status that was read.
    pub fn on_reply(self, cfg: &ModemConfig, reply: Reply) -> (r: Progress)
        requires
            self.retry.attempting(),
        ensures
            exists|s: AttemptStep|
                #[trigger] step_ok(*cfg, self.stage, reply, s) && follows(*cfg, self.retry, s, r),
            self.stage matches Stage::LoggingOut(p) ==> r matches Progress::Finish(Ok(q)) && q@
                == p@,
            running(r),
    {
        let HealthCheck { stage, mut retry } = self;
        let ghost retry0 = retry;
        let s = attempt_step(cfg, stage, reply);
        let ghost s0 = s;
        let r = match s {
            AttemptStep::Continue(stage, req) => Progress::Send(HealthCheck { stage, retry }, req),
            AttemptStep::Done(outcome) => match retry.on_outcome(outcome) {
                Verdict::Succeeded(p) => Progress::Finish(Ok(p)),
                Verdict::Failed(e) => Progress::Finish(Err(CheckError::Failed(e))),
                Verdict::Exhausted(e) => Progress::Finish(Err(CheckError::Exhausted(e))),
                Verdict::Retry => {
                    let b = attempt_begin(cfg);
                    let ghost b0 = b;
                    let r = Self::resume(retry, b);
                    assert(begin_ok(*cfg, b0) && started(retry, b0, r));
                    r
                },
            },
        };
        assert(step_ok(*cfg, self.stage, reply, s0) && follows(*cfg, retry0, s0, r));
        r
    }
}

} // verus!
