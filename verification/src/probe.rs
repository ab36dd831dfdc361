//! The readiness prober's bookkeeping: a bounded budget of connection
//! attempts with a fixed delay between them.
//!
//! The shell makes the actual TCP connection attempts and reports each
//! outcome; the schedule decides whether to declare the backend ready,
//! sleep and retry, or give up.

use vstd::prelude::*;

verus! {

/// What the prober should do after one connection attempt.
#[derive(Clone, Copy, Debug, PartialEq, Eq, Structural)]
pub enum ProbeStep {
    /// The connection succeeded: the backend is ready.
    Succeeded,
    /// The connection failed and budget remains: sleep this many
    /// milliseconds, then try again.
    RetryAfter(u64),
    /// The connection failed and the budget is spent: report not ready.
    Exhausted,
}

/// A bounded probe budget: at most `max_attempts` connection attempts,
/// `interval_ms` of sleep between consecutive ones.
#[derive(Clone, Copy, Debug, PartialEq, Eq, Structural)]
pub struct ProbeSchedule {
    /// How many connection attempts may be made in all.
    pub max_attempts: u32,
    /// Sleep between two consecutive attempts, in milliseconds.
    pub interval_ms: u64,
    /// How many attempts have been consumed so far.
    pub attempts_made: u32,
}

impl ProbeSchedule {
    /// The consumed count never exceeds the budget.
    pub open spec fn wf(self) -> bool {
        self.attempts_made <= self.max_attempts
    }

    /// A fresh schedule with nothing consumed.
    pub fn new(max_attempts: u32, interval_ms: u64) -> (s: ProbeSchedule)
        requires
            max_attempts >= 1,
        ensures
            s == (ProbeSchedule { max_attempts, interval_ms, attempts_made: 0u32 }),
            s.wf(),
    {
        ProbeSchedule { max_attempts, interval_ms, attempts_made: 0 }
    }

    /// Consumes one attempt and decides what follows: success ends the
    /// probe, a failure retries after `interval_ms` while budget remains,
    /// and the attempt that spends the budget reports `Exhausted`.
    pub fn record_attempt(&mut self, connected: bool) -> (r: ProbeStep)
        requires
            old(self).wf(),
            old(self).attempts_made < old(self).max_attempts,
        ensures
            *final(self) == (ProbeSchedule {
                attempts_made: (old(self).attempts_made + 1) as u32,
                ..*old(self)
            }),
            final(self).wf(),
            connected ==> r == ProbeStep::Succeeded,
            !connected && final(self).attempts_made < final(self).max_attempts ==> r
                == ProbeStep::RetryAfter(old(self).interval_ms),
            !connected && final(self).attempts_made == final(self).max_attempts ==> r
                == ProbeStep::Exhausted,
    {
        self.attempts_made = self.attempts_made + 1;
        if connected {
            ProbeStep::Succeeded
        } else if self.attempts_made < self.max_attempts {
            ProbeStep::RetryAfter(self.interval_ms)
        } else {
            ProbeStep::Exhausted
        }
    }
}

/// Whether one of the first `budget` connection outcomes is a success: the
/// boolean the readiness wait reports, as a function of what the network
/// did.
pub open spec fn ready_within(outcomes: Seq<bool>, budget: nat) -> bool {
    exists|i: int| 0 <= i < budget && i < outcomes.len() && outcomes[i]
}

/// Replays recorded connection outcomes against an attempt budget and
/// returns whether the wait would have declared the backend ready: true
/// exactly when a success occurs among the first `max_attempts` outcomes.
/// Outcomes past the first success would never have been attempted.
pub fn wait_ready_outcome(outcomes: &Vec<bool>, max_attempts: u32) -> (b: bool)
    ensures
        b == ready_within(outcomes@, max_attempts as nat),
{
    let mut i: usize = 0;
    let budget: usize = max_attempts as usize;
    while i < budget && i < outcomes.len()
        invariant
            budget == max_attempts as nat,
            i <= budget,
            i <= outcomes@.len(),
            forall|k: int| 0 <= k < i ==> !outcomes@[k],
        decreases outcomes@.len() - i,
    {
        if outcomes[i] {
            return true;
        }
        i = i + 1;
    }
    false
}

} // verus!
