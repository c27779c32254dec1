use activity_telemetry::ring::ActivityRing;
use activity_telemetry::state::{CaptureError, CaptureState, LoopKind};
use activity_telemetry::login::login;

#[test]
fn ring_never_exceeds_capacity_and_evicts_oldest() {
    let mut ring = ActivityRing::new();
    for i in 0..205u32 {
        ring.push(format!("event-{}", i));
        assert!(ring.len() <= 200);
    }
    assert_eq!(ring.len(), 200);
    let all = ring.get_recent(Some(200));
    assert_eq!(all.len(), 200);
    // the five oldest entries were evicted, oldest first
    assert_eq!(all[0], "event-5");
    assert_eq!(all[199], "event-204");
}

#[test]
fn ring_round_trip_verbatim_in_order() {
    let mut ring = ActivityRing::new();
    let lines = ["alpha", "beta", "gamma"];
    for l in lines {
        ring.push(l.to_string());
    }
    let got = ring.get_recent(Some(200));
    assert_eq!(got, vec!["alpha".to_string(), "beta".to_string(), "gamma".to_string()]);
}

#[test]
fn ring_limit_defaults_and_caps() {
    let mut ring = ActivityRing::new();
    for i in 0..10u32 {
        ring.push(format!("{}", i));
    }
    // default limit is 50, which exceeds the ten entries
    assert_eq!(ring.get_recent(None).len(), 10);
    // a small limit returns the most recent tail, oldest first
    let tail = ring.get_recent(Some(3));
    assert_eq!(tail, vec!["7".to_string(), "8".to_string(), "9".to_string()]);
    // an oversized limit is capped and returns everything present
    assert_eq!(ring.get_recent(Some(5000)).len(), 10);
}

#[test]
fn ring_clear_empties() {
    let mut ring = ActivityRing::new();
    ring.push("x".to_string());
    ring.clear();
    assert_eq!(ring.len(), 0);
    assert!(ring.get_recent(None).is_empty());
}

#[test]
fn start_twice_fails_already_running() {
    let mut state = CaptureState::new();
    assert_eq!(state.start_capture().unwrap(), "Capture started");
    assert_eq!(state.start_capture().unwrap_err(), CaptureError::AlreadyRunning);
    assert!(state.capture_status());

    assert_eq!(state.start_video_capture().unwrap(), "Video capture loop started");
    assert_eq!(state.start_video_capture().unwrap_err(), CaptureError::AlreadyRunning);
    assert!(state.status(LoopKind::Video));
}

#[test]
fn stop_video_twice_fails_not_running() {
    let mut state = CaptureState::new();
    state.start_video_capture().unwrap();
    assert_eq!(state.stop_video_capture().unwrap(), "Video capture stopped");
    assert_eq!(state.stop_video_capture().unwrap_err(), CaptureError::NotRunning);
    assert!(!state.status(LoopKind::Video));
}

#[test]
fn stop_screenshot_is_idempotent() {
    let mut state = CaptureState::new();
    state.start_capture().unwrap();
    assert_eq!(state.stop_capture(), "Capture stopped");
    assert!(!state.capture_status());
    // stopping again is a no-op success in the command surface
    assert_eq!(state.stop_capture(), "Capture stopped");
    assert!(!state.capture_status());
}

#[test]
fn error_messages() {
    assert_eq!(
        CaptureError::AlreadyRunning.message(LoopKind::Video),
        "Video capture already running"
    );
    assert_eq!(CaptureError::AlreadyRunning.message(LoopKind::Screenshot), "Capture already running");
    assert_eq!(CaptureError::NotRunning.message(LoopKind::Video), "Video capture not running");
}

#[test]
fn is_idle_strictly_exceeds_threshold() {
    // the state is born with the current clock; move forward from there
    let base = activity_telemetry::clock::current_ts_millis();
    let mut state = CaptureState::new();
    state.touch_input(base + 10_000);
    // exactly the threshold is not idle; one millisecond past it is
    assert!(!state.is_idle(base + 11_000, 1));
    assert!(state.is_idle(base + 11_001, 1));
    // immediately after an input event, never idle, even at threshold zero
    state.touch_input(base + 42_000);
    assert!(!state.is_idle(base + 42_000, 0));
}

#[test]
fn touch_input_never_runs_backward() {
    let base = activity_telemetry::clock::current_ts_millis();
    let mut state = CaptureState::new();
    state.touch_input(base + 50_000);
    state.touch_input(base + 40_000);
    // the later of the two stamps governs idleness
    assert!(!state.is_idle(base + 50_500, 1));
    assert!(state.is_idle(base + 51_001, 1));
}

#[test]
fn clear_activity_leaves_flags() {
    let mut state = CaptureState::new();
    state.start_capture().unwrap();
    state.push_activity("one".to_string());
    state.clear_activity();
    assert!(state.get_recent_activity(None).is_empty());
    assert!(state.capture_status());
}

#[test]
fn get_recent_activity_returns_tail() {
    let mut state = CaptureState::new();
    for i in 0..7u32 {
        state.push_activity(format!("rec{}", i));
    }
    let tail = state.get_recent_activity(Some(2));
    assert_eq!(tail, vec!["rec5".to_string(), "rec6".to_string()]);
}

#[test]
fn login_accepts_configured_credentials() {
    let r = login("admin".to_string(), "password123".to_string());
    assert!(r.success);
    assert_eq!(r.message, "Login successful");
}

#[test]
fn login_rejects_bad_credentials() {
    let r = login("admin".to_string(), "wrong".to_string());
    assert!(!r.success);
    assert_eq!(r.message, "Invalid credentials");
    let r2 = login("root".to_string(), "password123".to_string());
    assert!(!r2.success);
}
