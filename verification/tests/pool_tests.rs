use stream_recorder::errors::ErrorKind;
use stream_recorder::pool::Coordinator;
use stream_recorder::recorder::Action;
use stream_recorder::recorder::OpenOutcome;
use stream_recorder::recorder::Phase;
use stream_recorder::recorder::Recorder;
use stream_recorder::recorder::StreamEvent;
use stream_recorder::recorder::ROTATE_SECS;
use stream_recorder::shutdown::ShutdownController;
use stream_recorder::supervisor::Decision;
use stream_recorder::supervisor::RetrySupervisor;
use stream_recorder::targets::parse_target_list;

#[test]
fn empty_input_list_waits_for_nobody() {
    // Scenario: empty input list. The coordinator starts zero supervisors
    // and the wait for the pool returns immediately.
    let targets = parse_target_list("");
    let coordinator = Coordinator::new(targets);
    assert_eq!(coordinator.supervisor_count(), 0);
    assert!(coordinator.start_supervisors().is_empty());
    assert!(coordinator.all_exited());
}

#[test]
fn shutdown_request_is_idempotent() {
    let mut ctl = ShutdownController::new();
    assert!(!ctl.is_shutdown_requested());
    ctl.request_shutdown();
    assert!(ctl.is_shutdown_requested());
    ctl.request_shutdown();
    assert!(ctl.is_shutdown_requested());
}

#[test]
fn one_supervisor_per_target_and_wait_returns_after_all_exit() {
    let targets = parse_target_list("rtsp://camA\nrtsp://camB\n");
    let mut coordinator = Coordinator::new(targets);
    assert_eq!(coordinator.supervisor_count(), 2);
    let sups = coordinator.start_supervisors();
    assert_eq!(sups.len(), 2);
    assert!(!coordinator.all_exited());
    coordinator.supervisor_exited();
    assert!(!coordinator.all_exited());
    coordinator.supervisor_exited();
    assert!(coordinator.all_exited());
}

/// Runs one recording attempt of camA, whose source never opens.
/// Returns the number of segment files the attempt created.
fn cam_a_attempt() -> usize {
    let mut rec = Recorder::new();
    let act = rec.on_open_outcome(OpenOutcome::OpenFailed { message: "no route to host".to_string() });
    assert!(matches!(act, Action::DoNothing));
    match &rec.phase {
        Phase::Failed { error } => assert_eq!(error.kind, ErrorKind::SourceUnavailable),
        _ => panic!("camA attempt should fail to open"),
    }
    0
}

/// Runs one recording attempt of camB: 301 seconds of continuous video
/// packets, one per second, then a stream-level error.
/// Returns the number of completed (rotated) segments.
fn cam_b_attempt(shutdown: &ShutdownController) -> usize {
    let mut rec = Recorder::new();
    let act = rec.on_open_outcome(OpenOutcome::Opened { best_video_lane: Some(0) });
    assert!(matches!(act, Action::OpenSegment));
    rec.on_segment_opened(0);
    let mut rotated = 0;
    for now in 1..=301u64 {
        let ev = StreamEvent::Packet { lane: 0, payload: Some(vec![0xAB]) };
        let act = rec.on_stream_event(ev, shutdown.is_shutdown_requested(), now);
        match act {
            Action::Append { .. } => assert_ne!(now, ROTATE_SECS),
            Action::AppendThenRotate { .. } => {
                assert_eq!(now, ROTATE_SECS);
                rotated += 1;
            }
            _ => panic!("camB packets should be appended"),
        }
    }
    let act = rec.on_stream_event(
        StreamEvent::SourceError { message: "stream interrupted".to_string() },
        shutdown.is_shutdown_requested(),
        302,
    );
    assert!(matches!(act, Action::FinishSegment));
    rec.on_drained(true, String::new());
    match &rec.phase {
        Phase::Failed { error } => assert_eq!(error.kind, ErrorKind::StreamInterrupted),
        _ => panic!("camB attempt should end interrupted"),
    }
    rotated
}

#[test]
fn two_camera_scenario() {
    // Scenario: camA never opens; camB streams 301 seconds of video, rotates
    // exactly one segment, then is interrupted and backs off towards a fresh
    // attempt. Once shutdown is requested, both supervisors exit and the
    // coordinator's wait returns.
    let targets = parse_target_list("rtsp://camA\nrtsp://camB\n");
    let mut coordinator = Coordinator::new(targets);
    let mut sups = coordinator.start_supervisors();
    let mut ctl = ShutdownController::new();

    let mut cam_a_files = 0;
    let mut cam_b_rotated = 0;

    // a few rounds before shutdown: every completion earns a 5 s backoff
    for _ in 0..3 {
        for (which, sup) in sups.iter_mut().enumerate() {
            assert!(sup.observe_before_attempt(ctl.is_shutdown_requested()));
            if which == 0 {
                cam_a_files += cam_a_attempt();
            } else {
                cam_b_rotated += cam_b_attempt(&ctl);
            }
            let d = sup.on_attempt_complete(ctl.is_shutdown_requested());
            assert_eq!(d, Decision::RetryAfterBackoff { backoff_secs: 5 });
        }
    }
    assert_eq!(cam_a_files, 0);
    assert_eq!(cam_b_rotated, 3); // exactly one rotated segment per attempt

    // the operator requests shutdown; both supervisors exit at their next
    // poll point, camA retrying no more and camB starting no new attempt
    ctl.request_shutdown();
    for sup in sups.iter_mut() {
        assert!(!sup.observe_before_attempt(ctl.is_shutdown_requested()));
        assert!(sup.exited);
        coordinator.supervisor_exited();
    }
    assert!(coordinator.all_exited());
    for sup in sups.iter() {
        assert_eq!(sup.attempts, 3);
    }
}

#[test]
fn isolation_a_failing_stream_never_delays_a_healthy_one() {
    // camA interrupts forever; camB keeps rotating segments, one per attempt
    let ctl = ShutdownController::new();
    let mut b_total = 0;
    for _ in 0..4 {
        let _ = cam_a_attempt();
        b_total += cam_b_attempt(&ctl);
    }
    assert_eq!(b_total, 4);
}
