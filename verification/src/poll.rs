//! The result poller: a bounded state machine that waits for a worker to
//! deposit a status entry in the shared store.
//!
//! The poller itself performs no I/O. The caller queries the store for the
//! status key, reports what it saw through [`Poller::on_status_reply`], and
//! acts on the returned [`PollStep`]: fetch the body, sleep one interval and
//! retry, give up with a timeout, or abort on a store failure.

use vstd::prelude::*;

verus! {

/// Milliseconds slept between two store queries.
pub const POLL_INTERVAL_MILLIS: u64 = 5;

/// Number of store queries issued before giving up. Together with
/// [`POLL_INTERVAL_MILLIS`] this yields the externally observable ceiling of
/// 20 seconds of wall-clock wait per request.
pub const MAX_POLL_ATTEMPTS: u32 = 4000;

/// What a query of the store for the status key observed.
pub enum StoreReply {
    /// The entry exists and holds these bytes.
    Present(Vec<u8>),
    /// The entry does not exist (yet).
    Absent,
    /// The store could not be queried at all (transport or protocol error).
    Failed,
}

/// The poller's decision after one store query.
pub enum PollStep {
    /// A status entry appeared: fetch the body entry now and translate.
    Found(Vec<u8>),
    /// Nothing yet: sleep one interval and query again.
    Sleep,
    /// The attempt budget is exhausted: answer with the timeout response.
    TimedOut,
    /// The store failed: abort the request as upstream-unavailable.
    Abort,
}

/// Attempt counter for one request's poll loop. Counts queries issued so
/// far, starting at 1 for the first query, exactly as many as the bound.
pub struct Poller {
    pub attempts: u32,
}

impl Poller {
    /// A fresh poller, about to issue its first store query.
    pub fn new() -> (p: Poller)
        ensures
            p.attempts == 1,
    {
        Poller { attempts: 1 }
    }

    /// Advance the state machine by one observed store reply.
    pub fn on_status_reply(&mut self, reply: StoreReply) -> (step: PollStep)
        ensures
            reply matches StoreReply::Present(b) ==> (step matches PollStep::Found(s) && s@ == b@
                && final(self).attempts == old(self).attempts),
            reply matches StoreReply::Failed ==> (step matches PollStep::Abort && final(
                self).attempts == old(self).attempts),
            (reply matches StoreReply::Absent) && old(self).attempts < MAX_POLL_ATTEMPTS ==> (step
                matches PollStep::Sleep && final(self).attempts == old(self).attempts + 1),
            (reply matches StoreReply::Absent) && old(self).attempts >= MAX_POLL_ATTEMPTS ==> (step
                matches PollStep::TimedOut && final(self).attempts == old(self).attempts),
    {
        match reply {
            StoreReply::Present(b) => PollStep::Found(b),
            StoreReply::Failed => PollStep::Abort,
            StoreReply::Absent => {
                if self.attempts < MAX_POLL_ATTEMPTS {
                    self.attempts = self.attempts + 1;
                    PollStep::Sleep
                } else {
                    PollStep::TimedOut
                }
            },
        }
    }
}

/// How many store queries a poller whose counter stands at `attempts` still
/// issues when the status entry never appears: every query but the last is
/// answered `Absent` and followed by one interval of sleep, and the last one
/// yields the timeout.
pub open spec fn absent_queries_remaining(attempts: u32) -> nat
    decreases MAX_POLL_ATTEMPTS - attempts,
{
    if attempts >= MAX_POLL_ATTEMPTS {
        1
    } else {
        1 + absent_queries_remaining((attempts + 1) as u32)
    }
}

/// Timeout bound: a fresh poller that only ever sees `Absent` issues exactly
/// `MAX_POLL_ATTEMPTS` store queries, sleeping `POLL_INTERVAL_MILLIS` between
/// consecutive ones, before it reports `TimedOut` — so the caller waits at
/// least `(MAX_POLL_ATTEMPTS - 1)` intervals and at most `MAX_POLL_ATTEMPTS`
/// intervals plus one query latency.
pub proof fn lemma_timeout_bound()
    ensures
        absent_queries_remaining(1) == MAX_POLL_ATTEMPTS,
{
    lemma_absent_queries_count(1);
}

/// From any reachable counter value, the number of remaining queries under
/// always-absent replies is exactly the remaining attempt budget.
pub proof fn lemma_absent_queries_count(attempts: u32)
    requires
        1 <= attempts <= MAX_POLL_ATTEMPTS,
    ensures
        absent_queries_remaining(attempts) == MAX_POLL_ATTEMPTS - attempts + 1,
    decreases MAX_POLL_ATTEMPTS - attempts,
{
    if attempts < MAX_POLL_ATTEMPTS {
        lemma_absent_queries_count((attempts + 1) as u32);
    }
}

} // verus!
