//! The process-wide shutdown flag.
//!
//! A single boolean, initially false, that transitions to true exactly once
//! and never resets. Requesting shutdown is idempotent. Every supervisor and
//! recorder polls it cooperatively; nothing is force-killed. This type is
//! the verified model of the flag's contract; a running process shares one
//! atomically between its stream threads.

use vstd::prelude::*;

verus! {

/// The single cancellation flag of the whole pool.
pub struct ShutdownController {
    pub requested: bool,
}

/// The controller after a shutdown request: the flag is set whatever it was.
pub open spec fn after_request(s: ShutdownController) -> ShutdownController {
    ShutdownController { requested: true }
}

impl ShutdownController {
    /// A fresh controller: shutdown not requested.
    pub fn new() -> (s: ShutdownController)
        ensures
            !s.requested,
    {
        ShutdownController { requested: false }
    }

    /// Requests shutdown. Safe to call more than once; the flag only ever
    /// goes from false to true.
    pub fn request_shutdown(&mut self)
        ensures
            *final(self) == after_request(*old(self)),
            final(self).requested,
    {
        self.requested = true;
    }

    /// Non-blocking read of the flag.
    pub fn is_shutdown_requested(&self) -> (b: bool)
        ensures
            b == self.requested,
    {
        self.requested
    }
}

/// Law of the shutdown flag: requesting shutdown is idempotent, and a
/// request never lowers the flag — once set it stays set.
pub proof fn lemma_shutdown_monotonic(s: ShutdownController)
    ensures
        after_request(after_request(s)) == after_request(s),
        after_request(s).requested,
        s.requested ==> after_request(s) == s,
{
}

} // verus!
