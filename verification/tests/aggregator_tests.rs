use activity_telemetry::aggregator::Aggregator;
use activity_telemetry::events::{ButtonKind, InputEvent, KeyKind, WindowContext};
use activity_telemetry::state::{flush_into, CaptureState};

fn ctx() -> WindowContext {
    WindowContext {
        app_name: "editor.exe".to_string(),
        process_name: "editor.exe".to_string(),
        window_title: "notes".to_string(),
        pid: 4321,
    }
}

const T0: u64 = 1_000_000;

#[test]
fn double_click_within_window_counts_once_per_pair() {
    let mut agg = Aggregator::new(T0);
    agg.handle_event(InputEvent::ButtonPress(ButtonKind::Left), T0 + 1_000);
    assert_eq!(agg.metrics.mouse.double_clicks, 0);
    agg.handle_event(InputEvent::ButtonPress(ButtonKind::Left), T0 + 1_499);
    assert_eq!(agg.metrics.mouse.double_clicks, 1);
    // a third press within the window of the second pairs with it again
    agg.handle_event(InputEvent::ButtonPress(ButtonKind::Left), T0 + 1_700);
    assert_eq!(agg.metrics.mouse.double_clicks, 2);
}

#[test]
fn double_click_gap_or_other_button_never_counts() {
    let mut agg = Aggregator::new(T0);
    agg.handle_event(InputEvent::ButtonPress(ButtonKind::Left), T0 + 1_000);
    // a gap of exactly the window is not a double click
    agg.handle_event(InputEvent::ButtonPress(ButtonKind::Left), T0 + 1_500);
    assert_eq!(agg.metrics.mouse.double_clicks, 0);
    // a different button within the window is not a double click
    agg.handle_event(InputEvent::ButtonPress(ButtonKind::Right), T0 + 1_600);
    assert_eq!(agg.metrics.mouse.double_clicks, 0);
    assert_eq!(agg.metrics.mouse.left_clicks, 2);
    assert_eq!(agg.metrics.mouse.right_clicks, 1);
}

#[test]
fn key_classification_updates_counters() {
    let mut agg = Aggregator::new(T0);
    let mut t = T0;
    let presses = [
        (KeyKind::Other, 1u64),
        (KeyKind::Enter, 1),
        (KeyKind::Backspace, 1),
        (KeyKind::Arrow, 1),
        (KeyKind::HomeEnd, 1),
        (KeyKind::Page, 1),
        (KeyKind::Function, 1),
        (KeyKind::Alt, 1),
        (KeyKind::Shift, 1),
    ];
    for (k, _) in presses {
        t += 10;
        agg.handle_event(InputEvent::KeyPress(k), t);
    }
    assert_eq!(agg.metrics.char_count, 1);
    assert_eq!(agg.metrics.enter_count, 1);
    assert_eq!(agg.metrics.backspace_count, 1);
    assert_eq!(agg.metrics.nav_keys.arrows, 1);
    assert_eq!(agg.metrics.nav_keys.home_end, 1);
    assert_eq!(agg.metrics.nav_keys.pgup_pgdn, 1);
    assert_eq!(agg.metrics.function_keys.f1_f12, 1);
    assert_eq!(agg.metrics.mods.alt, 1);
    assert_eq!(agg.metrics.mods.shift, 1);
    assert_eq!(agg.metrics.kpm, 0);
}

#[test]
fn copy_paste_only_while_control_held() {
    let mut agg = Aggregator::new(T0);
    agg.handle_event(InputEvent::KeyPress(KeyKind::CharC), T0 + 10);
    assert_eq!(agg.metrics.char_count, 1);
    assert_eq!(agg.metrics.copy_count, 0);
    agg.handle_event(InputEvent::KeyPress(KeyKind::Control), T0 + 20);
    agg.handle_event(InputEvent::KeyPress(KeyKind::CharC), T0 + 30);
    agg.handle_event(InputEvent::KeyPress(KeyKind::CharV), T0 + 40);
    assert_eq!(agg.metrics.copy_count, 1);
    assert_eq!(agg.metrics.paste_count, 1);
    assert_eq!(agg.metrics.mods.ctrl, 1);
    agg.handle_event(InputEvent::KeyRelease(KeyKind::Control), T0 + 50);
    agg.handle_event(InputEvent::KeyPress(KeyKind::CharV), T0 + 60);
    assert_eq!(agg.metrics.paste_count, 1);
    assert_eq!(agg.metrics.char_count, 2);
}

#[test]
fn drag_counts_move_while_button_held() {
    let mut agg = Aggregator::new(T0);
    agg.handle_event(InputEvent::MouseMove, T0 + 10);
    assert_eq!(agg.metrics.mouse.moves, 1);
    assert_eq!(agg.metrics.mouse.drags, 0);
    agg.handle_event(InputEvent::ButtonPress(ButtonKind::Left), T0 + 20);
    agg.handle_event(InputEvent::MouseMove, T0 + 30);
    assert_eq!(agg.metrics.mouse.moves, 2);
    assert_eq!(agg.metrics.mouse.drags, 1);
    agg.handle_event(InputEvent::ButtonRelease(ButtonKind::Left), T0 + 40);
    agg.handle_event(InputEvent::MouseMove, T0 + 50);
    assert_eq!(agg.metrics.mouse.drags, 1);
}

#[test]
fn throttled_moves_do_not_flush_on_their_own() {
    let mut agg = Aggregator::new(T0);
    // within the throttle window of session start: nothing pending, no flush
    assert!(!agg.handle_event(InputEvent::MouseMove, T0 + 50));
    assert!(!agg.pending_log);
    // past the throttle: becomes pending, but the batch window holds it back
    assert!(!agg.handle_event(InputEvent::MouseMove, T0 + 150));
    assert!(agg.pending_log);
    // still pending, and the batch window has now elapsed: flush is due
    assert!(agg.handle_event(InputEvent::MouseMove, T0 + 600));
    let line = agg.flush(&ctx(), "2026-01-02T03:04:05+00:00");
    assert!(!agg.pending_log);
    assert!(line.starts_with("{\"app_name\":"));
    // right after the flush a throttled move is quiet again
    assert!(!agg.handle_event(InputEvent::MouseMove, T0 + 650));
    assert_eq!(agg.metrics.mouse.moves, 4);
}

#[test]
fn move_only_flushes_at_most_every_500ms() {
    let mut agg = Aggregator::new(T0);
    let mut flushes = 0u32;
    let mut last_flush: Option<u64> = None;
    let mut t = T0;
    for _ in 0..50 {
        t += 120; // every move passes the 100 ms throttle
        if agg.handle_event(InputEvent::MouseMove, t) {
            if let Some(prev) = last_flush {
                assert!(t - prev >= 500);
            }
            last_flush = Some(t);
            flushes += 1;
            agg.flush(&ctx(), "2026-01-02T03:04:05+00:00");
        }
    }
    assert!(flushes >= 2);
    // fifty moves over six seconds can flush at most once per half second
    assert!(flushes <= 13);
}

#[test]
fn releases_keep_pending_for_retry() {
    let mut agg = Aggregator::new(T0);
    // a key press is immediately eligible and due
    assert!(agg.handle_event(InputEvent::KeyPress(KeyKind::Other), T0 + 10));
    // suppose the window lookup failed: no flush call, pending stays set
    assert!(agg.pending_log);
    // a release within the batch window does not retry yet
    assert!(!agg.handle_event(InputEvent::KeyRelease(KeyKind::Other), T0 + 20));
    // a release after the batch window retries the pending batch
    assert!(agg.handle_event(InputEvent::KeyRelease(KeyKind::Other), T0 + 600));
    assert!(agg.pending_log);
}

#[test]
fn rapid_keypresses_count_and_bound_flushes() {
    let mut agg = Aggregator::new(T0);
    let mut state = CaptureState::new();
    let mut flushes = 0u32;
    let mut t = T0;
    for _ in 0..10 {
        t += 5;
        if agg.handle_event(InputEvent::KeyPress(KeyKind::Other), t) {
            flushes += 1;
            flush_into(&mut agg, &mut state, &ctx(), "2026-01-02T03:04:05+00:00");
        }
    }
    assert_eq!(agg.metrics.char_count, 10);
    // never more flushes than raw events
    assert!(flushes <= 10);
    assert_eq!(state.get_recent_activity(None).len() as u32, flushes);
}

#[test]
fn flush_line_is_exact_json() {
    let mut agg = Aggregator::new(T0);
    agg.handle_event(InputEvent::KeyPress(KeyKind::Other), T0 + 10);
    agg.handle_event(InputEvent::KeyPress(KeyKind::Enter), T0 + 20);
    agg.handle_event(InputEvent::ButtonPress(ButtonKind::Left), T0 + 30);
    agg.handle_event(InputEvent::Wheel, T0 + 40);
    let line = agg.flush(&ctx(), "2026-01-02T03:04:05+00:00");
    let expected = "{\"app_name\":\"editor.exe\",\"metrics\":{\
\"backspace_count\":0,\"char_count\":1,\"copy_count\":0,\"enter_count\":1,\
\"function_keys\":{\"f1_f12\":0},\"kpm\":0,\
\"mods\":{\"alt\":0,\"ctrl\":0,\"shift\":0},\
\"mouse\":{\"double_clicks\":0,\"drags\":0,\"left_clicks\":1,\"middle_clicks\":0,\
\"moves\":0,\"right_clicks\":0,\"scrolls\":1},\
\"nav_keys\":{\"arrows\":0,\"home_end\":0,\"pgup_pgdn\":0},\"paste_count\":0},\
\"pid\":4321,\"process_name\":\"editor.exe\",\
\"timestamp\":\"2026-01-02T03:04:05+00:00\",\"window_title\":\"notes\"}";
    assert_eq!(line, expected);
}

#[test]
fn flush_line_parses_and_escapes() {
    let mut agg = Aggregator::new(T0);
    agg.handle_event(InputEvent::KeyPress(KeyKind::Other), T0 + 10);
    let tricky = WindowContext {
        app_name: "a\"b\\c".to_string(),
        process_name: "p\nq".to_string(),
        window_title: "tab\there \u{1} end".to_string(),
        pid: 7,
    };
    let line = agg.flush(&tricky, "2026-01-02T03:04:05+00:00");
    let v: serde_json::Value = serde_json::from_str(&line).expect("flush line must be valid JSON");
    assert_eq!(v["app_name"].as_str().unwrap(), "a\"b\\c");
    assert_eq!(v["process_name"].as_str().unwrap(), "p\nq");
    assert_eq!(v["window_title"].as_str().unwrap(), "tab\there \u{1} end");
    assert_eq!(v["pid"].as_u64().unwrap(), 7);
    assert_eq!(v["metrics"]["char_count"].as_u64().unwrap(), 1);
}

#[test]
fn flush_into_stores_and_returns_same_line() {
    let mut agg = Aggregator::new(T0);
    let mut state = CaptureState::new();
    agg.handle_event(InputEvent::KeyPress(KeyKind::Other), T0 + 10);
    let line = flush_into(&mut agg, &mut state, &ctx(), "2026-01-02T03:04:05+00:00");
    let stored = state.get_recent_activity(Some(1));
    assert_eq!(stored, vec![line]);
    assert!(!agg.pending_log);
}
