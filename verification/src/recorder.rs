//! The per-stream recording state machine.
//!
//! A `Recorder` drives one connection attempt end to end: it reacts to the
//! outcome of opening the external media source, routes video payloads to
//! the current segment, rotates segments on a fixed time threshold, and
//! funnels every exit path (end of stream, shutdown, stream error, write
//! error) through a single draining step, so no segment is left unflushed.
//!
//! The machine owns no file and performs no network call itself: the caller
//! performs each returned [`Action`] against the real collaborator and
//! reports the outcome back as the next event. The machine's ghost state
//! keeps a ledger of segment opens and closes and the spans of all rotated
//! segments, which carries the two segment invariants: at most one segment
//! is open at any instant, and every rotated segment lasted at least the
//! rotation threshold.

use vstd::prelude::*;
use vstd::string::StringExecFns;

use crate::errors::ErrorKind;
use crate::errors::RecorderError;

verus! {

/// A segment is rotated only once this many seconds have elapsed since its
/// file was created.
pub const ROTATE_SECS: u64 = 300;

/// The lifetime of one completed (rotated-out) segment, in seconds of the
/// caller's monotonic clock.
pub struct SegmentSpan {
    pub start: u64,
    pub end: u64,
}

/// Where a recording attempt stands.
pub enum Phase {
    /// Waiting for the outcome of opening the media source.
    Connecting,
    /// A video lane was selected; waiting for the first segment file.
    OpeningFile { lane: u64 },
    /// Receiving packets; the current segment was created at `opened_at`.
    Streaming { lane: u64, opened_at: u64 },
    /// Flushing the last open segment; `pending` is the error to report
    /// afterwards, if the drain was forced by one.
    Draining { pending: Option<RecorderError> },
    /// Terminal success.
    Closed,
    /// Terminal failure.
    Failed { error: RecorderError },
}

/// What opening the media source yielded.
pub enum OpenOutcome {
    /// The source opened; `best_video_lane` is the collaborator's selection
    /// of the best video lane, if it has any video lane at all.
    Opened { best_video_lane: Option<u64> },
    /// The source could not be opened.
    OpenFailed { message: String },
}

/// One event from the media source while streaming.
pub enum StreamEvent {
    /// A demuxed packet: which lane it belongs to, and its raw payload
    /// bytes, if it carries any.
    Packet { lane: u64, payload: Option<Vec<u8>> },
    /// The collaborator reported a stream-level error.
    SourceError { message: String },
    /// The packet sequence ended without an error.
    EndOfStream,
}

/// What the caller must do next against the real files and source.
pub enum Action {
    /// Nothing.
    DoNothing,
    /// Create the first segment file of this attempt.
    OpenSegment,
    /// Append these bytes, verbatim, to the current segment.
    Append { bytes: Vec<u8> },
    /// Append these bytes, then flush the current segment and create the
    /// next one.
    AppendThenRotate { bytes: Vec<u8> },
    /// Flush the current segment and create the next one.
    Rotate,
    /// Flush and close the current segment for good.
    FinishSegment,
}

/// The per-stream recording state machine.
pub struct Recorder {
    pub phase: Phase,
    /// Spans of every rotated-out segment of this attempt.
    pub completed: Ghost<Seq<SegmentSpan>>,
    /// How many segment files this attempt has opened.
    pub opens: Ghost<nat>,
    /// How many segment files this attempt has flushed and closed.
    pub closes: Ghost<nat>,
}

/// Whether the current segment, created at `opened_at`, is due for rotation
/// at instant `now`.
pub open spec fn rotation_due(opened_at: u64, now: u64) -> bool {
    now >= opened_at + ROTATE_SECS
}

/// Every recorded span lasted at least the rotation threshold.
pub open spec fn spans_wf(spans: Seq<SegmentSpan>) -> bool {
    forall|i: int| 0 <= i < spans.len() ==> (#[trigger] spans[i]).start + ROTATE_SECS <= spans[i].end
}

impl Recorder {
    /// How many segment files are open for write right now: exactly one
    /// while streaming or draining, none in any other phase.
    pub open spec fn open_files(self) -> nat {
        match self.phase {
            Phase::Streaming { .. } => 1,
            Phase::Draining { .. } => 1,
            _ => 0,
        }
    }

    /// The recorder's invariant: the open/close ledger balances against the
    /// current phase, and every rotated segment lasted at least the
    /// threshold.
    pub open spec fn inv(self) -> bool {
        &&& spans_wf(self.completed@)
        &&& self.opens@ == self.closes@ + self.open_files()
    }

    /// A fresh attempt, about to open the media source.
    pub fn new() -> (r: Recorder)
        ensures
            r.phase is Connecting,
            r.completed@ == Seq::<SegmentSpan>::empty(),
            r.opens@ == 0,
            r.closes@ == 0,
            r.inv(),
    {
        Recorder {
            phase: Phase::Connecting,
            completed: Ghost(Seq::empty()),
            opens: Ghost(0),
            closes: Ghost(0),
        }
    }

    /// Reacts to the outcome of opening the media source: with a video lane
    /// the attempt proceeds to open its first segment file; a source with no
    /// video lane or a failed open is a terminal failure of this attempt.
    pub fn on_open_outcome(&mut self, outcome: OpenOutcome) -> (act: Action)
        requires
            old(self).phase is Connecting,
            old(self).inv(),
        ensures
            final(self).inv(),
            final(self).completed == old(self).completed,
            final(self).opens == old(self).opens,
            final(self).closes == old(self).closes,
            match outcome {
                OpenOutcome::Opened { best_video_lane: Some(lane) } => final(self).phase == (
                Phase::OpeningFile { lane }) && act is OpenSegment,
                OpenOutcome::Opened { best_video_lane: None } => (final(self).phase matches
                    Phase::Failed { error } && error.kind == ErrorKind::NoVideoStream
                    && error.message@ == "No video stream found"@) && act is DoNothing,
                OpenOutcome::OpenFailed { message } => (final(self).phase matches Phase::Failed {
                    error,
                } && error.kind == ErrorKind::SourceUnavailable && error.message@ == message@)
                    && act is DoNothing,
            },
    {
        match outcome {
            OpenOutcome::Opened { best_video_lane: Some(lane) } => {
                self.phase = Phase::OpeningFile { lane };
                Action::OpenSegment
            },
            OpenOutcome::Opened { best_video_lane: None } => {
                self.phase = Phase::Failed {
                    error: RecorderError::new(
                        ErrorKind::NoVideoStream,
                        String::from_str("No video stream found"),
                    ),
                };
                Action::DoNothing
            },
            OpenOutcome::OpenFailed { message } => {
                self.phase = Phase::Failed {
                    error: RecorderError::new(ErrorKind::SourceUnavailable, message),
                };
                Action::DoNothing
            },
        }
    }

    /// The first segment file of this attempt was created at instant `now`:
    /// streaming begins.
    pub fn on_segment_opened(&mut self, now: u64)
        requires
            old(self).phase is OpeningFile,
            old(self).inv(),
        ensures
            final(self).inv(),
            final(self).phase == (Phase::Streaming {
                lane: old(self).phase->OpeningFile_lane,
                opened_at: now,
            }),
            final(self).completed == old(self).completed,
            final(self).opens@ == old(self).opens@ + 1,
            final(self).closes == old(self).closes,
    {
        let lane = match &self.phase {
            Phase::OpeningFile { lane } => *lane,
            _ => 0u64,
        };
        self.phase = Phase::Streaming { lane, opened_at: now };
        self.opens = Ghost(self.opens@ + 1);
    }

    /// The first segment file of this attempt could not be created: the
    /// attempt fails with no file ever opened, so there is nothing to drain.
    pub fn on_segment_open_failed(&mut self, message: String)
        requires
            old(self).phase is OpeningFile,
            old(self).inv(),
        ensures
            final(self).inv(),
            final(self).phase matches Phase::Failed { error } && error.kind == ErrorKind::IoFailure
                && error.message@ == message@,
            final(self).completed == old(self).completed,
            final(self).opens == old(self).opens,
            final(self).closes == old(self).closes,
    {
        self.phase = Phase::Failed { error: RecorderError::new(ErrorKind::IoFailure, message) };
    }

    /// Reacts to one streaming event, with the shutdown flag as observed
    /// after the event arrived and the monotonic clock reading `now`. The
    /// full transition is pinned down by [`stream_step`].
    pub fn on_stream_event(&mut self, ev: StreamEvent, shutdown: bool, now: u64) -> (act: Action)
        requires
            old(self).phase is Streaming,
            old(self).inv(),
            now >= old(self).phase->Streaming_opened_at,
        ensures
            final(self).inv(),
            stream_step(*old(self), ev, shutdown, now, *final(self), act),
    {
        let (lane, opened_at) = match &self.phase {
            Phase::Streaming { lane, opened_at } => (*lane, *opened_at),
            _ => (0u64, 0u64),
        };
        if shutdown {
            self.phase = Phase::Draining { pending: None };
            return Action::FinishSegment;
        }
        match ev {
            StreamEvent::EndOfStream => {
                self.phase = Phase::Draining { pending: None };
                Action::FinishSegment
            },
            StreamEvent::SourceError { message } => {
                self.phase = Phase::Draining {
                    pending: Some(RecorderError::new(ErrorKind::StreamInterrupted, message)),
                };
                Action::FinishSegment
            },
            StreamEvent::Packet { lane: pkt_lane, payload } => {
                if pkt_lane != lane {
                    return Action::DoNothing;
                }
                let due = now - opened_at >= ROTATE_SECS;
                if due {
                    self.phase = Phase::Streaming { lane, opened_at: now };
                    proof {
                        self.completed@ = self.completed@.push(
                            SegmentSpan { start: opened_at, end: now },
                        );
                        self.opens@ = self.opens@ + 1;
                        self.closes@ = self.closes@ + 1;
                    }
                }
                match payload {
                    Some(bytes) => {
                        if due {
                            Action::AppendThenRotate { bytes }
                        } else {
                            Action::Append { bytes }
                        }
                    },
                    None => {
                        if due {
                            Action::Rotate
                        } else {
                            Action::DoNothing
                        }
                    },
                }
            },
        }
    }

    /// A write or rotation against the current segment failed: the attempt
    /// drains what is still open and will report a local I/O failure.
    pub fn on_io_failure(&mut self, message: String)
        requires
            old(self).phase is Streaming,
            old(self).inv(),
        ensures
            final(self).inv(),
            final(self).phase matches Phase::Draining { pending: Some(e) } && e.kind
                == ErrorKind::IoFailure && e.message@ == message@,
            final(self).completed == old(self).completed,
            final(self).opens == old(self).opens,
            final(self).closes == old(self).closes,
    {
        self.phase = Phase::Draining {
            pending: Some(RecorderError::new(ErrorKind::IoFailure, message)),
        };
    }

    /// The final flush of the last segment finished (or failed): the attempt
    /// reaches its terminal phase with no file left open. A pending error
    /// carried into the drain is reported; a failed final flush is itself a
    /// local I/O failure.
    pub fn on_drained(&mut self, flush_ok: bool, message: String)
        requires
            old(self).phase is Draining,
            old(self).inv(),
        ensures
            final(self).inv(),
            final(self).completed == old(self).completed,
            final(self).opens == old(self).opens,
            final(self).closes@ == old(self).closes@ + 1,
            final(self).open_files() == 0,
            !flush_ok ==> (final(self).phase matches Phase::Failed { error } && error.kind
                == ErrorKind::IoFailure && error.message@ == message@),
            flush_ok ==> final(self).phase == (match old(self).phase->Draining_pending {
                Some(e) => Phase::Failed { error: e },
                None => Phase::Closed,
            }),
    {
        let mut taken = Phase::Closed;
        core::mem::swap(&mut self.phase, &mut taken);
        let pending = match taken {
            Phase::Draining { pending } => pending,
            _ => None,
        };
        if !flush_ok {
            self.phase = Phase::Failed { error: RecorderError::new(ErrorKind::IoFailure, message) };
        } else {
            match pending {
                Some(e) => {
                    self.phase = Phase::Failed { error: e };
                },
                None => {
                    self.phase = Phase::Closed;
                },
            }
        }
        proof {
            self.closes@ = self.closes@ + 1;
        }
    }
}

/// Law of the single open segment: a recorder that satisfies its invariant —
/// as every recorder built by [`Recorder::new`] and stepped by the methods
/// above does — has at most one segment file open for write at any instant:
/// its ledger of opened files never runs more than one ahead of its ledger
/// of flushed-and-closed files.
pub proof fn lemma_single_open_segment(r: Recorder)
    requires
        r.inv(),
    ensures
        r.open_files() <= 1,
        r.opens@ <= r.closes@ + 1,
{
}

/// Law of the rotation lower bound: in a recorder that satisfies its
/// invariant, every completed (rotated-out, non-final) segment spans at
/// least the rotation threshold of the monotonic clock.
pub proof fn lemma_rotation_lower_bound(r: Recorder, i: int)
    requires
        r.inv(),
        0 <= i < r.completed@.len(),
    ensures
        r.completed@[i].end >= r.completed@[i].start + ROTATE_SECS,
{
}

/// The exact transition taken by [`Recorder::on_stream_event`]: the shutdown
/// flag is honored first; then a stream error or the end of the stream
/// drains the attempt; a packet of another lane is discarded; a packet of
/// the selected lane has its payload appended verbatim, and rotates the
/// segment when the rotation threshold has elapsed.
pub open spec fn stream_step(
    pre: Recorder,
    ev: StreamEvent,
    shutdown: bool,
    now: u64,
    post: Recorder,
    act: Action,
) -> bool {
    let lane = pre.phase->Streaming_lane;
    let opened_at = pre.phase->Streaming_opened_at;
    if shutdown {
        &&& post.phase == (Phase::Draining { pending: None })
        &&& post.completed == pre.completed
        &&& post.opens == pre.opens
        &&& post.closes == pre.closes
        &&& act is FinishSegment
    } else {
        match ev {
            StreamEvent::EndOfStream => {
                &&& post.phase == (Phase::Draining { pending: None })
                &&& post.completed == pre.completed
                &&& post.opens == pre.opens
                &&& post.closes == pre.closes
                &&& act is FinishSegment
            },
            StreamEvent::SourceError { message } => {
                &&& post.phase matches Phase::Draining { pending: Some(e) } && e.kind
                    == ErrorKind::StreamInterrupted && e.message@ == message@
                &&& post.completed == pre.completed
                &&& post.opens == pre.opens
                &&& post.closes == pre.closes
                &&& act is FinishSegment
            },
            StreamEvent::Packet { lane: pkt_lane, payload } => {
                if pkt_lane != lane {
                    &&& post == pre
                    &&& act is DoNothing
                } else {
                    let due = rotation_due(opened_at, now);
                    let rotated = {
                        &&& post.phase == (Phase::Streaming { lane, opened_at: now })
                        &&& post.completed@ == pre.completed@.push(
                            SegmentSpan { start: opened_at, end: now },
                        )
                        &&& post.opens@ == pre.opens@ + 1
                        &&& post.closes@ == pre.closes@ + 1
                    };
                    match payload {
                        Some(bytes) => {
                            if due {
                                &&& rotated
                                &&& act matches Action::AppendThenRotate { bytes: b } && b@
                                    == bytes@
                            } else {
                                &&& post == pre
                                &&& act matches Action::Append { bytes: b } && b@ == bytes@
                            }
                        },
                        None => {
                            if due {
                                &&& rotated
                                &&& act is Rotate
                            } else {
                                &&& post == pre
                                &&& act is DoNothing
                            }
                        },
                    }
                }
            },
        }
    }
}

} // verus!
