//! Explicit retry policy for storage calls.
//!
//! The service retries nothing: a storage operation is attempted once and
//! its failure fails the request. That choice is stated here as a policy
//! value instead of being left implicit, so the caller of a storage
//! operation asks the policy before every attempt.

use vstd::prelude::*;

verus! {

/// What to do after a number of failed attempts.
#[derive(Clone, Copy, Debug, PartialEq, Eq, Structural)]
pub enum RetryDecision {
    Attempt,
    GiveUp,
}

/// A bounded-attempts retry policy: an operation is attempted while fewer
/// than `max_attempts` attempts were made, and given up afterwards.
#[derive(Clone, Copy, Debug, PartialEq, Eq, Structural)]
pub struct RetryPolicy {
    pub max_attempts: u32,
}

impl RetryPolicy {
    /// The policy of the service: storage calls are attempted exactly
    /// once and never retried.
    pub fn single_attempt() -> (r: RetryPolicy)
        ensures
            r.max_attempts == 1,
    {
        RetryPolicy { max_attempts: 1 }
    }

    /// Decides whether one more attempt is due after `attempts_made`
    /// attempts.
    pub fn decide(&self, attempts_made: u32) -> (r: RetryDecision)
        ensures
            r == RetryDecision::Attempt <==> attempts_made < self.max_attempts,
    {
        if attempts_made < self.max_attempts {
            RetryDecision::Attempt
        } else {
            RetryDecision::GiveUp
        }
    }
}

} // verus!
