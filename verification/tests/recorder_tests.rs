use stream_recorder::errors::ErrorKind;
use stream_recorder::recorder::Action;
use stream_recorder::recorder::OpenOutcome;
use stream_recorder::recorder::Phase;
use stream_recorder::recorder::Recorder;
use stream_recorder::recorder::StreamEvent;
use stream_recorder::recorder::ROTATE_SECS;

fn streaming_recorder(lane: u64, opened_at: u64) -> Recorder {
    let mut rec = Recorder::new();
    let act = rec.on_open_outcome(OpenOutcome::Opened { best_video_lane: Some(lane) });
    assert!(matches!(act, Action::OpenSegment));
    rec.on_segment_opened(opened_at);
    assert!(matches!(rec.phase, Phase::Streaming { .. }));
    rec
}

fn packet(lane: u64, payload: Option<Vec<u8>>) -> StreamEvent {
    StreamEvent::Packet { lane, payload }
}

fn expect_failed_kind(rec: &Recorder, kind: ErrorKind, message: &str) {
    match &rec.phase {
        Phase::Failed { error } => {
            assert_eq!(error.kind, kind);
            assert_eq!(error.message, message);
        }
        _ => panic!("recorder is not in the failed phase"),
    }
}

#[test]
fn open_failure_is_source_unavailable() {
    let mut rec = Recorder::new();
    let act = rec.on_open_outcome(OpenOutcome::OpenFailed { message: "host unreachable".to_string() });
    assert!(matches!(act, Action::DoNothing));
    expect_failed_kind(&rec, ErrorKind::SourceUnavailable, "host unreachable");
}

#[test]
fn source_without_video_lane_fails() {
    let mut rec = Recorder::new();
    let act = rec.on_open_outcome(OpenOutcome::Opened { best_video_lane: None });
    assert!(matches!(act, Action::DoNothing));
    expect_failed_kind(&rec, ErrorKind::NoVideoStream, "No video stream found");
}

#[test]
fn first_segment_create_failure_is_io_failure() {
    let mut rec = Recorder::new();
    rec.on_open_outcome(OpenOutcome::Opened { best_video_lane: Some(0) });
    rec.on_segment_open_failed("disk full".to_string());
    expect_failed_kind(&rec, ErrorKind::IoFailure, "disk full");
}

#[test]
fn video_payload_is_appended_verbatim() {
    let mut rec = streaming_recorder(7, 1000);
    let act = rec.on_stream_event(packet(7, Some(vec![9, 8, 7])), false, 1010);
    match act {
        Action::Append { bytes } => assert_eq!(bytes, vec![9, 8, 7]),
        _ => panic!("payload of the selected lane was not appended"),
    }
}

#[test]
fn other_lane_packets_are_discarded() {
    let mut rec = streaming_recorder(7, 1000);
    let act = rec.on_stream_event(packet(3, Some(vec![1, 2, 3])), false, 1010);
    assert!(matches!(act, Action::DoNothing));
    assert!(matches!(rec.phase, Phase::Streaming { .. }));
}

#[test]
fn payloadless_video_packet_is_skipped() {
    let mut rec = streaming_recorder(7, 1000);
    let act = rec.on_stream_event(packet(7, None), false, 1010);
    assert!(matches!(act, Action::DoNothing));
}

#[test]
fn rotation_waits_for_the_threshold() {
    let mut rec = streaming_recorder(7, 1000);
    let just_before = 1000 + ROTATE_SECS - 1;
    let act = rec.on_stream_event(packet(7, Some(vec![1])), false, just_before);
    assert!(matches!(act, Action::Append { .. }));
}

#[test]
fn rotation_triggers_at_the_threshold() {
    let mut rec = streaming_recorder(7, 1000);
    let due = 1000 + ROTATE_SECS;
    let act = rec.on_stream_event(packet(7, Some(vec![1])), false, due);
    match act {
        Action::AppendThenRotate { bytes } => assert_eq!(bytes, vec![1]),
        _ => panic!("segment was not rotated at the threshold"),
    }
    // the clock was reset: the next packet does not rotate again
    let act = rec.on_stream_event(packet(7, Some(vec![2])), false, due + 1);
    assert!(matches!(act, Action::Append { .. }));
}

#[test]
fn payloadless_packet_still_rotates_when_due() {
    let mut rec = streaming_recorder(7, 1000);
    let act = rec.on_stream_event(packet(7, None), false, 1000 + ROTATE_SECS);
    assert!(matches!(act, Action::Rotate));
}

#[test]
fn end_of_stream_drains_then_closes() {
    let mut rec = streaming_recorder(7, 1000);
    let act = rec.on_stream_event(StreamEvent::EndOfStream, false, 1010);
    assert!(matches!(act, Action::FinishSegment));
    assert!(matches!(rec.phase, Phase::Draining { .. }));
    rec.on_drained(true, String::new());
    assert!(matches!(rec.phase, Phase::Closed));
}

#[test]
fn shutdown_drains_before_writing_the_packet() {
    let mut rec = streaming_recorder(7, 1000);
    let act = rec.on_stream_event(packet(7, Some(vec![1, 2])), true, 1010);
    assert!(matches!(act, Action::FinishSegment));
    rec.on_drained(true, String::new());
    assert!(matches!(rec.phase, Phase::Closed));
}

#[test]
fn stream_error_drains_then_fails() {
    let mut rec = streaming_recorder(7, 1000);
    let act = rec.on_stream_event(
        StreamEvent::SourceError { message: "connection reset".to_string() },
        false,
        1010,
    );
    assert!(matches!(act, Action::FinishSegment));
    assert!(matches!(rec.phase, Phase::Draining { .. }));
    rec.on_drained(true, String::new());
    expect_failed_kind(&rec, ErrorKind::StreamInterrupted, "connection reset");
}

#[test]
fn write_failure_drains_then_fails() {
    let mut rec = streaming_recorder(7, 1000);
    rec.on_io_failure("short write".to_string());
    assert!(matches!(rec.phase, Phase::Draining { .. }));
    rec.on_drained(true, String::new());
    expect_failed_kind(&rec, ErrorKind::IoFailure, "short write");
}

#[test]
fn failed_final_flush_is_io_failure() {
    let mut rec = streaming_recorder(7, 1000);
    rec.on_stream_event(StreamEvent::EndOfStream, false, 1010);
    rec.on_drained(false, "flush failed".to_string());
    expect_failed_kind(&rec, ErrorKind::IoFailure, "flush failed");
}
