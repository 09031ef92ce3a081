//! The health-poll policy: when a backend counts as alive, and the bounded
//! retry budget.
//!
//! The host issues one HTTP GET against the liveness route per attempt and
//! records the observed status here (`None` for a transport failure).  The
//! budget is fixed: a constant delay between attempts and a constant maximum
//! attempt count, so the total wait is deterministic.

use crate::text::dec_digits;
use crate::text::decimal_string;
use vstd::prelude::*;

verus! {

/// The liveness URL the host polls: the fixed route on loopback at the
/// allocated port.
pub fn health_check_url(port: u16) -> (u: String)
    ensures
        u@ == "http://127.0.0.1:"@ + dec_digits(port as nat) + "/api/config"@,
{
    let mut u = "http://127.0.0.1:".to_owned();
    let numeral = decimal_string(port);
    u.append(numeral.as_str());
    u.append("/api/config");
    proof {
        assert(u@ =~= "http://127.0.0.1:"@ + dec_digits(port as nat) + "/api/config"@);
    }
    u
}

/// Attempts the poll makes before giving up.
pub const MAX_HEALTH_ATTEMPTS: u32 = 60;

/// Milliseconds the host sleeps before each attempt.
pub const HEALTH_POLL_DELAY_MS: u64 = 500;

/// Seconds the host allows one liveness request before counting it failed.
pub const HEALTH_REQUEST_TIMEOUT_SECS: u64 = 2;

/// A status answers "alive" when it is a success (2xx) or a 404: a reachable
/// backend whose liveness route has no data yet is still up.
pub open spec fn status_means_alive(status: u16) -> bool {
    200 <= status < 300 || status == 404
}

/// What one attempt observed: the HTTP status of an answer, or `None` when
/// the request failed in transport (refused, reset, timed out).
pub open spec fn observation_means_alive(obs: Option<u16>) -> bool {
    match obs {
        Some(status) => status_means_alive(status),
        None => false,
    }
}

/// Decide whether an observed HTTP status counts as an alive backend.
pub fn response_is_alive(status: u16) -> (alive: bool)
    ensures
        alive == status_means_alive(status),
{
    (200 <= status && status < 300) || status == 404
}

/// What one poll attempt decides.
#[derive(Clone, Copy, Debug, PartialEq, Eq, Structural)]
pub enum PollStep {
    /// The backend answered alive: the start attempt may complete.
    Ready,
    /// Not alive yet, and budget remains: the host sleeps and tries again.
    Retry,
    /// Not alive and the budget is spent: the start attempt is fatal.
    Exhausted,
}

/// The decision one attempt makes, given how many attempts came before it.
pub open spec fn poll_decision(attempts_before: nat, obs: Option<u16>) -> PollStep {
    if observation_means_alive(obs) {
        PollStep::Ready
    } else if attempts_before + 1 >= MAX_HEALTH_ATTEMPTS {
        PollStep::Exhausted
    } else {
        PollStep::Retry
    }
}

/// The outcome of polling through a sequence of observations, attempt by
/// attempt: the first decision that is not a retry, or `Retry` while the
/// observations run out before the budget does.
pub open spec fn poll_outcome(attempts_before: nat, observations: Seq<Option<u16>>) -> PollStep
    decreases observations.len(),
{
    if observations.len() == 0 {
        PollStep::Retry
    } else if poll_decision(attempts_before, observations[0]) == PollStep::Retry {
        poll_outcome(attempts_before + 1, observations.subrange(1, observations.len() as int))
    } else {
        poll_decision(attempts_before, observations[0])
    }
}

/// The attempt counter of one bounded health poll.
pub struct HealthPoll {
    pub attempts: u32,
}

impl HealthPoll {
    /// The counter never passes the budget.
    pub open spec fn wf(self) -> bool {
        self.attempts <= MAX_HEALTH_ATTEMPTS
    }

    /// A poll that has not attempted anything yet.
    pub fn new() -> (p: Self)
        ensures
            p.attempts == 0,
            p.wf(),
    {
        HealthPoll { attempts: 0 }
    }

    /// Whether another attempt is still within the budget.
    pub fn can_attempt(&self) -> (b: bool)
        ensures
            b == (self.attempts < MAX_HEALTH_ATTEMPTS),
    {
        self.attempts < MAX_HEALTH_ATTEMPTS
    }

    /// Record what one attempt observed and decide how to go on: ready on an
    /// alive answer, retry while budget remains, exhausted on the last
    /// allowed attempt.
    pub fn record(&mut self, obs: Option<u16>) -> (step: PollStep)
        requires
            old(self).wf(),
            old(self).attempts < MAX_HEALTH_ATTEMPTS,
        ensures
            final(self).attempts == old(self).attempts + 1,
            final(self).wf(),
            step == poll_decision(old(self).attempts as nat, obs),
    {
        self.attempts = self.attempts + 1;
        let alive = match obs {
            Some(status) => response_is_alive(status),
            None => false,
        };
        if alive {
            PollStep::Ready
        } else if self.attempts >= MAX_HEALTH_ATTEMPTS {
            PollStep::Exhausted
        } else {
            PollStep::Retry
        }
    }
}

/// On observations that are never alive, the poll's outcome is decided by
/// count alone: it gives up exactly when the observations fill the remaining
/// budget, keeps retrying while they fall short, and never reports ready.
proof fn lemma_dead_poll_outcome(attempts_before: nat, observations: Seq<Option<u16>>)
    requires
        attempts_before < MAX_HEALTH_ATTEMPTS,
        forall|i: int|
            0 <= i < observations.len() ==> !observation_means_alive(#[trigger] observations[i]),
    ensures
        poll_outcome(attempts_before, observations) == if attempts_before + observations.len()
            >= MAX_HEALTH_ATTEMPTS {
            PollStep::Exhausted
        } else {
            PollStep::Retry
        },
    decreases observations.len(),
{
    if observations.len() > 0 {
        let rest = observations.subrange(1, observations.len() as int);
        if poll_decision(attempts_before, observations[0]) == PollStep::Retry {
            assert(forall|i: int|
                0 <= i < rest.len() ==> !observation_means_alive(#[trigger] rest[i]));
            lemma_dead_poll_outcome(attempts_before + 1, rest);
        }
    }
}

/// A backend that never answers: the poll fails after exactly the attempt
/// budget.  A run of dead observations reaches `Exhausted` exactly when it is
/// at least `MAX_HEALTH_ATTEMPTS` long, still retries on any shorter run, and
/// never reports ready.
pub proof fn lemma_never_alive_exhausts_budget(observations: Seq<Option<u16>>)
    requires
        forall|i: int|
            0 <= i < observations.len() ==> !observation_means_alive(#[trigger] observations[i]),
    ensures
        poll_outcome(0, observations) == if observations.len() >= MAX_HEALTH_ATTEMPTS {
            PollStep::Exhausted
        } else {
            PollStep::Retry
        },
        poll_outcome(0, observations) != PollStep::Ready,
{
    lemma_dead_poll_outcome(0, observations);
}

/// An alive answer — a 404 as much as a success — ends the poll ready at
/// once, whatever the attempt count stands at.
pub proof fn lemma_alive_answer_is_ready(attempts_before: nat, status: u16)
    requires
        status_means_alive(status),
    ensures
        poll_decision(attempts_before, Some(status)) == PollStep::Ready,
{
}

} // verus!
