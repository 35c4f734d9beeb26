//! Error taxonomy for a single stream recorder.
//!
//! All four kinds are local to one recorder and are recovered by its retry
//! supervisor; none of them propagates across streams.

use vstd::prelude::*;

verus! {

/// What went wrong during one recording attempt.
#[derive(Clone, Copy, Debug, PartialEq, Eq, Structural)]
pub enum ErrorKind {
    /// The source could not be opened at all (network, DNS, malformed
    /// address, protocol handshake failure).
    SourceUnavailable,
    /// The source opened but offers no usable video lane.
    NoVideoStream,
    /// The collaborator reported a stream-level error mid-recording.
    StreamInterrupted,
    /// A local filesystem create, write or flush failed.
    IoFailure,
}

/// An error outcome of one recording attempt: its kind plus the diagnostic
/// message preserved for reporting. The message is never branched on.
pub struct RecorderError {
    pub kind: ErrorKind,
    pub message: String,
}

impl RecorderError {
    /// Builds an error of the given kind carrying the given diagnostic.
    pub fn new(kind: ErrorKind, message: String) -> (e: RecorderError)
        ensures
            e.kind == kind,
            e.message@ == message@,
    {
        RecorderError { kind, message }
    }
}

} // verus!
