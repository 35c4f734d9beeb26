//! The per-stream retry supervisor.
//!
//! A supervisor wraps one stream recorder with bounded-delay infinite retry:
//! after every completed attempt, successful or not, it retries after a
//! fixed backoff unless the shutdown signal has been observed, in which case
//! it exits for good. Backoff is fixed by design: no growth, no jitter, no
//! retry cap.
//!
//! The machine is driven by its caller: before an attempt the caller asks
//! whether to start, and when an attempt completes it reports the shutdown
//! flag as observed at that moment and obeys the returned decision.

use vstd::prelude::*;

verus! {

/// Seconds waited between a completed attempt and the next one.
pub const BACKOFF_SECS: u64 = 5;

/// What the caller must do after reporting a completed attempt.
#[derive(Debug, PartialEq, Eq, Structural)]
pub enum Decision {
    /// Wait this many seconds (staying responsive to the shutdown signal),
    /// then start a fresh attempt.
    RetryAfterBackoff { backoff_secs: u64 },
    /// Stop for good: shutdown was observed.
    Exit,
}

/// The decision owed after an attempt completes under the given shutdown
/// observation: exit exactly when shutdown was observed, otherwise retry
/// after the fixed backoff.
pub open spec fn decision_after(shutdown: bool) -> Decision {
    if shutdown {
        Decision::Exit
    } else {
        Decision::RetryAfterBackoff { backoff_secs: BACKOFF_SECS }
    }
}

/// The retry supervisor of one stream target.
pub struct RetrySupervisor {
    /// Connection attempts completed so far.
    pub attempts: u64,
    /// Whether the supervisor has exited its retry loop.
    pub exited: bool,
}

impl RetrySupervisor {
    /// The state of a supervisor that has run nothing yet.
    pub open spec fn initial() -> RetrySupervisor {
        RetrySupervisor { attempts: 0, exited: false }
    }

    /// The state after one more attempt completes under the given shutdown
    /// observation.
    pub open spec fn after_completion(self, shutdown: bool) -> RetrySupervisor {
        RetrySupervisor { attempts: (self.attempts + 1) as u64, exited: shutdown }
    }

    /// A fresh supervisor: no attempts made, still running.
    pub fn new() -> (s: RetrySupervisor)
        ensures
            s == RetrySupervisor::initial(),
    {
        RetrySupervisor { attempts: 0, exited: false }
    }

    /// Polled before starting an attempt: an attempt starts exactly when
    /// shutdown has not been requested. Observing shutdown here ends the
    /// loop without a further attempt.
    pub fn observe_before_attempt(&mut self, shutdown: bool) -> (start: bool)
        requires
            !old(self).exited,
        ensures
            start == !shutdown,
            final(self).exited == shutdown,
            final(self).attempts == old(self).attempts,
    {
        if shutdown {
            self.exited = true;
        }
        !shutdown
    }

    /// Reports that an attempt completed, with the shutdown flag as observed
    /// at that moment. The supervisor exits exactly when shutdown was
    /// observed; otherwise it owes a retry after the fixed backoff.
    pub fn on_attempt_complete(&mut self, shutdown: bool) -> (d: Decision)
        requires
            !old(self).exited,
            old(self).attempts < u64::MAX,
        ensures
            *final(self) == old(self).after_completion(shutdown),
            final(self).attempts == old(self).attempts + 1,
            final(self).exited == shutdown,
            d == decision_after(shutdown),
    {
        self.attempts = self.attempts + 1;
        self.exited = shutdown;
        if shutdown {
            Decision::Exit
        } else {
            Decision::RetryAfterBackoff { backoff_secs: BACKOFF_SECS }
        }
    }
}

/// The supervisor state after a whole run in which `flags[k]` is the
/// shutdown flag observed when the `k + 1`-th completion would be reported:
/// completions are processed in order, and none is processed once the
/// supervisor has exited.
pub open spec fn run_supervisor(flags: Seq<bool>) -> RetrySupervisor
    decreases flags.len(),
{
    if flags.len() == 0 {
        RetrySupervisor::initial()
    } else {
        let prev = run_supervisor(flags.drop_last());
        if prev.exited {
            prev
        } else {
            prev.after_completion(flags.last())
        }
    }
}

/// Law of retry persistence: while shutdown is never observed, the
/// supervisor never gives up — every completion is followed by a retry, so a
/// run over `n` completions makes exactly `n` attempts and is still running.
/// In particular, a recorder failing `n` times in a row and succeeding on
/// the next attempt has seen exactly `n + 1` attempts.
pub proof fn lemma_retry_persistence(flags: Seq<bool>)
    requires
        flags.len() <= u64::MAX,
        forall|i: int| 0 <= i < flags.len() ==> !flags[i],
    ensures
        !run_supervisor(flags).exited,
        run_supervisor(flags).attempts == flags.len(),
    decreases flags.len(),
{
    if flags.len() > 0 {
        lemma_retry_persistence(flags.drop_last());
    }
}

/// Law of no lost shutdown: once shutdown is observed — first at the
/// completion with index `j` — the supervisor exits there and never retries
/// again: however long the run continues, exactly `j + 1` attempts are ever
/// made.
pub proof fn lemma_no_lost_shutdown(flags: Seq<bool>, j: int)
    requires
        flags.len() <= u64::MAX,
        0 <= j < flags.len(),
        flags[j],
        forall|i: int| 0 <= i < j ==> !flags[i],
    ensures
        run_supervisor(flags).exited,
        run_supervisor(flags).attempts == j + 1,
    decreases flags.len(),
{
    if j == flags.len() - 1 {
        lemma_retry_persistence(flags.drop_last());
    } else {
        lemma_no_lost_shutdown(flags.drop_last(), j);
    }
}

} // verus!
