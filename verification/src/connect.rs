//! When the library connects to the daemon: how many attempts are made,
//! and how long is waited after each failed one.
use vstd::prelude::*;

verus! {

/// The number of attempts at connecting to the daemon before giving up.
pub const MAX_CONNECTION_ATTEMPTS: u32 = 10;

/// The step by which the wait after a failed attempt grows, in milliseconds.
pub const RETRY_DELAY_STEP_MS: u64 = 50;

/// An attempt at connecting to the daemon, by its number, from 1.
pub struct ConnectionAttempt {
    number: u32,
}

/// What follows a failed attempt: a wait of `delay_ms` milliseconds, then
/// the `next` attempt, or giving up where there is none.
pub struct AfterFailure {
    pub delay_ms: u64,
    pub next: Option<ConnectionAttempt>,
}

impl ConnectionAttempt {
    #[verifier::type_invariant]
    closed spec fn in_range(self) -> bool {
        1 <= self.number <= MAX_CONNECTION_ATTEMPTS
    }

    /// The attempt's number.
    pub closed spec fn view(self) -> nat {
        self.number as nat
    }

    /// The first attempt.
    pub fn first() -> (r: ConnectionAttempt)
        ensures
            r@ == 1,
    {
        ConnectionAttempt { number: 1 }
    }

    /// The attempt's number, from 1.
    pub fn number(&self) -> (r: u32)
        ensures
            r == self@,
            1 <= r <= MAX_CONNECTION_ATTEMPTS,
    {
        proof {
            use_type_invariant(self);
        }
        self.number
    }

    /// What follows when this attempt fails: a wait that grows by
    /// `RETRY_DELAY_STEP_MS` with each attempt (none after the first), then
    /// the next attempt, or none after the last.
    pub fn after_failure(&self) -> (r: AfterFailure)
        ensures
            r.delay_ms == (self@ - 1) * RETRY_DELAY_STEP_MS,
            r.next is Some <==> self@ < MAX_CONNECTION_ATTEMPTS,
            r.next matches Some(next) ==> next@ == self@ + 1,
    {
        proof {
            use_type_invariant(self);
        }
        let delay_ms = (self.number as u64 - 1) * RETRY_DELAY_STEP_MS;
        let next = if self.number < MAX_CONNECTION_ATTEMPTS {
            Some(ConnectionAttempt { number: self.number + 1 })
        } else {
            None
        };
        AfterFailure { delay_ms, next }
    }
}

} // verus!
