//! The stream pool coordinator.
//!
//! The coordinator owns the configured targets, starts exactly one retry
//! supervisor per target, and waits until every supervisor has exited. It
//! tolerates an empty target list (the wait returns immediately) and
//! duplicate addresses (independent streams, no deduplication). Streams
//! share nothing but the read-only shutdown flag, so one stream's failures
//! cannot disturb another: the isolation laws at the bottom state this over
//! the pool's state.

use vstd::prelude::*;

use crate::recorder::Recorder;
use crate::supervisor::RetrySupervisor;
use crate::targets::StreamTarget;

verus! {

/// Owns the target list and tracks how many supervisors are still running.
pub struct Coordinator {
    pub targets: Vec<StreamTarget>,
    /// Supervisors started and not yet exited.
    pub live_supervisors: usize,
}

impl Coordinator {
    /// Never more supervisors live than targets configured.
    pub open spec fn inv(self) -> bool {
        self.live_supervisors <= self.targets@.len()
    }

    /// Takes ownership of the configured targets; one supervisor per target
    /// is accounted live from the start.
    pub fn new(targets: Vec<StreamTarget>) -> (c: Coordinator)
        ensures
            c.targets == targets,
            c.live_supervisors == targets@.len(),
            c.inv(),
    {
        let n = targets.len();
        Coordinator { targets, live_supervisors: n }
    }

    /// How many supervisors this pool runs: exactly one per target.
    pub fn supervisor_count(&self) -> (n: usize)
        ensures
            n == self.targets@.len(),
    {
        self.targets.len()
    }

    /// Starts the supervisors: exactly one fresh supervisor per target, in
    /// target order. An empty target list starts none.
    pub fn start_supervisors(&self) -> (sups: Vec<RetrySupervisor>)
        ensures
            sups@.len() == self.targets@.len(),
            forall|i: int|
                0 <= i < sups@.len() ==> sups@[i] == RetrySupervisor::initial(),
    {
        let n = self.targets.len();
        let mut sups: Vec<RetrySupervisor> = Vec::new();
        let mut k: usize = 0;
        while k < n
            invariant
                k == sups@.len(),
                k <= n,
                forall|i: int|
                    0 <= i < sups@.len() ==> sups@[i] == RetrySupervisor::initial(),
            decreases n - k,
        {
            sups.push(RetrySupervisor::new());
            k = k + 1;
        }
        sups
    }

    /// One supervisor reported that it exited its retry loop.
    pub fn supervisor_exited(&mut self)
        requires
            old(self).live_supervisors > 0,
        ensures
            final(self).live_supervisors == old(self).live_supervisors - 1,
            final(self).targets == old(self).targets,
            old(self).inv() ==> final(self).inv(),
    {
        self.live_supervisors = self.live_supervisors - 1;
    }

    /// Whether the blocking wait for the whole pool may return: exactly when
    /// every supervisor has exited. With zero targets this holds at once.
    pub fn all_exited(&self) -> (b: bool)
        ensures
            b == (self.live_supervisors == 0),
    {
        self.live_supervisors == 0
    }
}

/// Law of stream isolation: however stream `i`'s recorder steps, every other
/// stream's recorder is untouched — the pool shares no mutable state between
/// streams.
pub proof fn lemma_recorder_isolation(pool: Seq<Recorder>, i: int, j: int, stepped: Recorder)
    requires
        0 <= i < pool.len(),
        0 <= j < pool.len(),
        i != j,
    ensures
        pool.update(i, stepped)[j] == pool[j],
        pool.update(i, stepped).len() == pool.len(),
{
}

/// Law of supervisor isolation: a completion reported to supervisor `i`
/// changes no other supervisor; the shutdown flag is the only shared input,
/// and it is read, never written, by the step.
pub proof fn lemma_supervisor_isolation(
    pool: Seq<RetrySupervisor>,
    i: int,
    j: int,
    shutdown: bool,
)
    requires
        0 <= i < pool.len(),
        0 <= j < pool.len(),
        i != j,
    ensures
        pool.update(i, pool[i].after_completion(shutdown))[j] == pool[j],
{
}

} // verus!
