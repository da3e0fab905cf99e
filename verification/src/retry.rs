//! Bounded-retry bookkeeping for a fallible step.
//!
//! A step is attempted up to three times in all, with a fixed one-second
//! pause between attempts. The waiting and the step itself are the
//! caller's (they may suspend); this module owns the decision: after a
//! failure, whether another attempt is allowed — and so whether the pause
//! before it is due — or the last error is final.

use vstd::prelude::*;

verus! {

/// How many times in all a wrapped step is attempted.
pub const RETRY_ATTEMPTS: u64 = 3;

/// The attempts still allowed for one wrapped step. Fresh per step;
/// nothing is kept across cycles.
pub struct RetryState {
    /// Attempts not yet used, counting the one about to be made.
    pub attempts_left: u64,
}

impl RetryState {
    /// A new step starts with all three attempts ahead of it.
    pub fn new() -> (s: RetryState)
        ensures
            s.attempts_left == RETRY_ATTEMPTS,
    {
        RetryState { attempts_left: RETRY_ATTEMPTS }
    }

    /// Records that the attempt just made failed. Returns whether another
    /// attempt is allowed; the caller pauses one second exactly when it
    /// is, and otherwise returns the error it just observed.
    pub fn record_failure(&mut self) -> (again: bool)
        requires
            old(self).attempts_left > 0,
        ensures
            final(self).attempts_left == old(self).attempts_left - 1,
            again == (final(self).attempts_left > 0),
    {
        self.attempts_left = self.attempts_left - 1;
        self.attempts_left > 0
    }
}

} // verus!
