use screencap::control::{SessionControl, StartError, StartResult, Status, StopResult};
use screencap::frame::{encode, frame_file_name, EncodeError, RawFrame};
use screencap::pacing::Pacer;
use screencap::session::{
    Action, CaptureConfig, CaptureSession, ConfigError, EndReason, Poll, SessionError, Stage,
};

fn frame(width: u32, height: u32) -> RawFrame {
    RawFrame { width, height, pixels: vec![7u8; (width * height * 3) as usize] }
}

/// What a simulated run produced.
struct Run {
    end: EndReason,
    written: Vec<(u64, u64, String)>,
    session: CaptureSession,
}

/// Drives a session against a source that always has a frame ready, with a
/// clock that advances `step` microseconds per loop call. Writes fail for
/// the indices in `failing_writes` (counted by attempt).
fn simulate(
    config: CaptureConfig,
    step: u64,
    cancel_at: Option<u64>,
    failing_attempts: &[usize],
) -> Run {
    let mut clock: u64 = 0;
    let mut session = CaptureSession::new(config, clock);
    let mut written = Vec::new();
    let mut attempts = 0usize;
    let mut action = session.directory_result(true);
    loop {
        action = match action {
            Action::Iterate | Action::Backoff => {
                clock += step;
                let cancelled = cancel_at.map_or(false, |t| clock >= t);
                session.begin_iteration(clock, cancelled)
            }
            Action::Poll => session.on_poll(Poll::Frame(frame(2, 2)), clock),
            Action::Write { index, image } => {
                assert_eq!(&image.png[1..4], b"PNG");
                let ok = !failing_attempts.contains(&attempts);
                attempts += 1;
                if ok {
                    written.push((index, clock, frame_file_name(index)));
                }
                session.write_result(ok)
            }
            Action::Finish(end) => return Run { end, written, session },
        };
    }
}

fn config(rate: u32, ms: u64) -> CaptureConfig {
    CaptureConfig::new(rate, "/tmp/capA".to_string(), ms).unwrap()
}

#[test]
fn scenario_ten_fps_for_two_seconds() {
    let mut control = SessionControl::new();
    assert_eq!(control.start(), StartResult::Accepted);
    assert_eq!(control.status(), Status::Running);
    let run = simulate(config(10, 2000), 1000, None, &[]);
    control.session_ended();
    assert_eq!(run.end, EndReason::Expired);
    assert_eq!(control.status(), Status::Idle);
    let n = run.written.len();
    assert!((18..=22).contains(&n), "{} frames", n);
    for (i, (index, _, name)) in run.written.iter().enumerate() {
        assert_eq!(*index, i as u64);
        assert_eq!(*name, format!("frame_{:05}.png", i));
    }
    assert_eq!(run.written[0].2, "frame_00000.png");
}

#[test]
fn scenario_directory_not_writable() {
    let mut control = SessionControl::new();
    assert_eq!(control.start(), StartResult::Accepted);
    let mut session = CaptureSession::new(config(10, 2000), 0);
    let action = session.directory_result(false);
    let reason = EndReason::Failed(SessionError::DirectoryUnavailable);
    assert!(matches!(action, Action::Finish(r) if r == reason));
    assert_eq!(session.stage, Stage::Terminated(reason));
    assert_eq!(session.frame_index, 0);
    control.session_ended();
    assert_eq!(control.status(), Status::Idle);
}

#[test]
fn scenario_stop_before_first_frame() {
    let mut control = SessionControl::new();
    assert_eq!(control.start(), StartResult::Accepted);
    assert_eq!(control.stop(), StopResult::Stopping);
    let mut session = CaptureSession::new(config(10, 2000), 0);
    assert!(matches!(session.directory_result(true), Action::Iterate));
    let action = session.begin_iteration(5, control.is_cancel_requested());
    assert!(matches!(action, Action::Finish(EndReason::Cancelled)));
    assert!(session.frame_index <= 1);
    assert!(session.is_terminated());
    control.session_ended();
    assert_eq!(control.status(), Status::Idle);
}

#[test]
fn stop_when_idle_is_a_no_op() {
    let mut control = SessionControl::new();
    assert_eq!(control.stop(), StopResult::NoOpIfIdle);
    assert_eq!(control.stop(), StopResult::NoOpIfIdle);
    assert_eq!(control, SessionControl::new());
    assert_eq!(control.status(), Status::Idle);
}

#[test]
fn back_to_back_starts_admit_one() {
    let mut control = SessionControl::new();
    let first = control.start();
    let second = control.start();
    assert_eq!(first, StartResult::Accepted);
    assert_eq!(second, StartResult::Rejected(StartError::AlreadyRunning));
    control.session_ended();
    assert_eq!(control.start(), StartResult::Accepted);
}

#[test]
fn pacing_lower_bound_with_fast_source() {
    let run = simulate(config(30, 1000), 1, None, &[]);
    assert!(run.written.len() >= 2);
    for pair in run.written.windows(2) {
        let gap = pair[1].1 - pair[0].1;
        assert!(gap * 30 >= 1_000_000, "gap {}", gap);
    }
    assert_eq!(run.written.len(), 30);
}

#[test]
fn failed_writes_leave_no_gap() {
    let run = simulate(config(10, 1000), 1000, None, &[1, 2, 5]);
    for (i, (index, _, _)) in run.written.iter().enumerate() {
        assert_eq!(*index, i as u64);
    }
    assert_eq!(run.session.failed_writes, 3);
    assert_eq!(run.session.frame_index, run.written.len() as u64);
}

#[test]
fn stop_mid_session_ends_within_two_calls() {
    let mut session = CaptureSession::new(config(10, 10_000), 0);
    session.directory_result(true);
    assert!(matches!(session.begin_iteration(1, false), Action::Poll));
    // the stop request arrives here
    let a = session.on_poll(Poll::Frame(frame(1, 1)), 2);
    assert!(matches!(a, Action::Write { index: 0, .. }));
    assert!(matches!(session.write_result(true), Action::Iterate));
    let a = session.begin_iteration(3, true);
    assert!(matches!(a, Action::Finish(EndReason::Cancelled)));
    assert_eq!(session.frame_index, 1);
}

#[test]
fn not_ready_backs_off_and_fatal_fails() {
    let mut session = CaptureSession::new(config(10, 10_000), 0);
    session.directory_result(true);
    session.begin_iteration(1, false);
    assert!(matches!(session.on_poll(Poll::NotReady, 1), Action::Backoff));
    assert_eq!(session.stage, Stage::AtTop);
    session.begin_iteration(2, false);
    let a = session.on_poll(Poll::Fatal, 2);
    assert!(matches!(a, Action::Finish(EndReason::Failed(SessionError::SourceFailed))));
    assert!(session.is_terminated());
}

#[test]
fn frame_not_due_is_dropped() {
    let mut session = CaptureSession::new(config(10, 10_000), 0);
    session.directory_result(true);
    session.begin_iteration(0, false);
    assert!(matches!(session.on_poll(Poll::Frame(frame(1, 1)), 0), Action::Write { .. }));
    session.write_result(true);
    session.begin_iteration(50_000, false);
    assert!(matches!(session.on_poll(Poll::Frame(frame(1, 1)), 50_000), Action::Iterate));
    assert_eq!(session.skipped_frames, 0);
    session.begin_iteration(100_000, false);
    let a = session.on_poll(Poll::Frame(frame(1, 1)), 100_000);
    assert!(matches!(a, Action::Write { index: 1, .. }));
}

#[test]
fn malformed_frame_is_skipped() {
    let mut session = CaptureSession::new(config(10, 10_000), 0);
    session.directory_result(true);
    session.begin_iteration(0, false);
    let bad = RawFrame { width: 4, height: 4, pixels: vec![0u8; 10] };
    assert!(matches!(session.on_poll(Poll::Frame(bad), 0), Action::Iterate));
    assert_eq!(session.skipped_frames, 1);
    assert_eq!(session.frame_index, 0);
    session.begin_iteration(1, false);
    assert!(matches!(session.on_poll(Poll::Frame(frame(4, 4)), 1), Action::Write { index: 0, .. }));
}

#[test]
fn expiry_at_max_duration() {
    let mut session = CaptureSession::new(config(10, 2), 100);
    session.directory_result(true);
    assert!(matches!(session.begin_iteration(2099, false), Action::Poll));
    session.on_poll(Poll::NotReady, 2099);
    let a = session.begin_iteration(2100, false);
    assert!(matches!(a, Action::Finish(EndReason::Expired)));
}

#[test]
fn zero_frame_rate_is_rejected() {
    let r = CaptureConfig::new(0, "/tmp/x".to_string(), 1000);
    assert_eq!(r.err(), Some(ConfigError::ZeroFrameRate));
    let c = CaptureConfig::new(5, "/tmp/x".to_string(), 1000).unwrap();
    assert_eq!(c.frame_rate, 5);
    assert_eq!(c.output_directory, "/tmp/x");
}

#[test]
fn pacer_interval_and_readiness() {
    let p = Pacer::new(10);
    assert_eq!(p.interval_micros, 100_000);
    assert_eq!(Pacer::new(3).interval_micros, 333_334);
    assert_eq!(Pacer::new(1).interval_micros, 1_000_000);
    assert!(p.ready_for_next_frame(None, 0));
    assert!(!p.ready_for_next_frame(Some(1_000), 100_999));
    assert!(p.ready_for_next_frame(Some(1_000), 101_000));
    assert!(!p.ready_for_next_frame(Some(1_000), 500));
}

#[test]
fn frame_names_are_zero_padded() {
    assert_eq!(frame_file_name(0), "frame_00000.png");
    assert_eq!(frame_file_name(42), "frame_00042.png");
    assert_eq!(frame_file_name(99_999), "frame_99999.png");
    assert_eq!(frame_file_name(123_456), "frame_123456.png");
}

#[test]
fn encoder_checks_length_and_produces_png() {
    let bad = RawFrame { width: 2, height: 2, pixels: vec![0u8; 11] };
    assert_eq!(encode(&bad).err(), Some(EncodeError::LengthMismatch));
    let good = frame(3, 2);
    let image = encode(&good).unwrap();
    assert_eq!(image.width, 3);
    assert_eq!(image.height, 2);
    assert_eq!(&image.png[..8], &[137u8, 80, 78, 71, 13, 10, 26, 10]);
    assert_ne!(image.png, good.pixels);
    let empty = RawFrame { width: 0, height: 0, pixels: Vec::new() };
    assert_eq!(encode(&empty).err(), Some(EncodeError::EncoderFailed));
}
