//! A library for recording live network video streams into time-bounded
//! local segment files.
//!
//! The core is a set of per-stream state machines: a stream recorder that
//! drives one connection through connect, record, rotate and drain; a retry
//! supervisor that restarts a recorder with a fixed backoff until shutdown
//! is requested; and a coordinator that owns one supervisor per configured
//! target. Demultiplexing and decoding of the network transport is delegated
//! to an external media collaborator; the machines here consume its events
//! (packets, end of stream, errors) and decide what to write and when.

pub mod clock;
pub mod errors;
pub mod filename;
pub mod pool;
pub mod recorder;
pub mod shutdown;
pub mod supervisor;
pub mod targets;

pub use errors::ErrorKind;
pub use errors::RecorderError;
