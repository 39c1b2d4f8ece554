//! The retry policy around fetch attempts: up to three attempts, a fixed
//! pause between two of them, and the last error when all fail.
use vstd::prelude::*;
use crate::types::{ApiError, UsageStats};

verus! {

/// Attempts in all: the first one and two retries.
pub const MAX_ATTEMPTS: u32 = 3;

/// Pause before each retry, in milliseconds.
pub const RETRY_DELAY_MS: u64 = 100;

/// What the driver of the fetch loop does next.
#[derive(Debug)]
pub enum RetryStep {
    /// Sleep `RETRY_DELAY_MS`, then make another attempt.
    Retry,
    /// Stop, with this result.
    Done(Result<UsageStats, ApiError>),
}

/// The step taken after attempt number `made + 1` ended in `outcome`.
pub open spec fn next_step(made: nat, outcome: Result<UsageStats, ApiError>) -> RetryStep {
    match outcome {
        Ok(_) => RetryStep::Done(outcome),
        Err(_) => if made + 1 < MAX_ATTEMPTS {
            RetryStep::Retry
        } else {
            RetryStep::Done(outcome)
        },
    }
}

/// Counts the attempts made so far.
#[derive(Debug)]
pub struct RetryPolicy {
    pub attempts: u32,
}

impl RetryPolicy {
    /// No attempt made yet.
    pub fn new() -> (r: RetryPolicy)
        ensures
            r.attempts == 0,
    {
        RetryPolicy { attempts: 0 }
    }

    /// Another attempt may be made.
    pub fn may_attempt(&self) -> (r: bool)
        ensures
            r == (self.attempts < MAX_ATTEMPTS),
    {
        self.attempts < MAX_ATTEMPTS
    }

    /// Record the outcome of the attempt just made and say what follows.
    pub fn record(&mut self, outcome: Result<UsageStats, ApiError>) -> (step: RetryStep)
        requires
            old(self).attempts < MAX_ATTEMPTS,
        ensures
            final(self).attempts == old(self).attempts + 1,
            step == next_step(old(self).attempts as nat, outcome),
    {
        let made = self.attempts;
        self.attempts = made + 1;
        match outcome {
            Ok(s) => RetryStep::Done(Ok(s)),
            Err(e) => {
                if made + 1 < MAX_ATTEMPTS {
                    RetryStep::Retry
                } else {
                    RetryStep::Done(Err(e))
                }
            },
        }
    }
}

/// Driving the policy from `made` attempts over the successive outcomes:
/// the final result (`None` if the outcomes ran out first) and the number of
/// pauses taken.
pub open spec fn retry_run(made: nat, outcomes: Seq<Result<UsageStats, ApiError>>) -> (Option<Result<UsageStats, ApiError>>, nat)
    decreases outcomes.len(),
{
    if outcomes.len() == 0 || made >= MAX_ATTEMPTS {
        (None, 0)
    } else {
        match next_step(made, outcomes[0]) {
            RetryStep::Done(r) => (Some(r), 0),
            RetryStep::Retry => {
                let rest = retry_run(made + 1, outcomes.drop_first());
                (rest.0, rest.1 + 1)
            },
        }
    }
}

/// A fresh policy over any three outcomes returns the first success, pausing
/// once per failure before it; when all three fail it returns the third
/// error, after exactly two pauses.  Later outcomes are never consulted.
pub proof fn lemma_retry_policy(outcomes: Seq<Result<UsageStats, ApiError>>)
    requires
        outcomes.len() >= 3,
    ensures
        outcomes[0] is Ok ==> retry_run(0, outcomes) == (Some(outcomes[0]), 0nat),
        outcomes[0] is Err && outcomes[1] is Ok ==> retry_run(0, outcomes) == (
            Some(outcomes[1]),
            1nat,
        ),
        outcomes[0] is Err && outcomes[1] is Err && outcomes[2] is Ok ==> retry_run(0, outcomes)
            == (Some(outcomes[2]), 2nat),
        outcomes[0] is Err && outcomes[1] is Err && outcomes[2] is Err ==> retry_run(0, outcomes)
            == (Some(outcomes[2]), 2nat),
{
    let o1 = outcomes.drop_first();
    let o2 = o1.drop_first();
    assert(o1[0] == outcomes[1]);
    assert(o2[0] == outcomes[2]);
    reveal_with_fuel(retry_run, 4);
}

} // verus!
