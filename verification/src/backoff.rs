//! The backoff capability: a reset operation and a "next delay or give
//! up" operation. Any concrete policy satisfying it is pluggable; the
//! instance driving one object's retries must be independently stateful,
//! so that retry pacing on one object never affects another's.

use vstd::prelude::*;

verus! {

/// A retry-pacing policy. Delays are in milliseconds.
pub trait Backoff {
    /// Restores a clean-slate delay schedule, so that later independent
    /// work reusing this instance starts fresh. Called exactly once per
    /// object, when it converges.
    fn reset(&mut self) {
    }

    /// The next delay to wait before retrying, or `None` to give up now.
    /// Called each time a transient failure is classified.
    fn next_backoff(&mut self) -> Option<u64>;
}

/// A fixed-interval policy with a retry count: up to `retry_limit`
/// retries, each after the same interval; a limit of `None` allows no
/// retry at all.
pub struct FixedIntervalBackoff {
    pub interval_ms: u64,
    pub retries: u64,
    pub retry_limit: Option<u64>,
}

impl FixedIntervalBackoff {
    /// A fresh policy that has counted no retries yet.
    pub fn new(interval_ms: u64, retry_limit: Option<u64>) -> (r: FixedIntervalBackoff)
        ensures
            r.interval_ms == interval_ms,
            r.retries == 0,
            r.retry_limit == retry_limit,
    {
        FixedIntervalBackoff { interval_ms, retries: 0, retry_limit }
    }
}

impl Backoff for FixedIntervalBackoff {
    fn reset(&mut self) {
        self.retries = 0;
    }

    fn next_backoff(&mut self) -> Option<u64> {
        if self.retries < u64::MAX {
            self.retries = self.retries + 1;
        }
        match self.retry_limit {
            Some(limit) => if self.retries <= limit {
                Some(self.interval_ms)
            } else {
                None
            },
            None => None,
        }
    }
}

} // verus!
