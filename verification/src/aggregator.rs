//! The input-event aggregator: turns the high-frequency raw input stream
//! into per-session metrics and a low-frequency stream of flush decisions.
//!
//! Policy, per raw event: counters are updated by event kind; a button
//! press within `DOUBLE_CLICK_MS` of the previous press of the same button
//! counts a double click; a move while a button is held counts a drag.
//! Releases never make a record eligible on their own; moves are throttled
//! to one eligibility per `MOUSE_MOVE_THROTTLE_MS`; every other event is
//! immediately eligible.  An eligible event sets the pending flag; the
//! batch is flushed at once for a discrete event, and otherwise only when
//! `LOG_INTERVAL_MS` have passed since the last flush.

use vstd::prelude::*;
use crate::events::{ButtonKind, InputEvent, KeyKind, WindowContext};
use crate::json::{event_line, event_line_string};
use crate::metrics::{bump, bumped, Metrics, MouseStats};

verus! {

/// Minimum spacing between two move events that may set the pending flag.
pub const MOUSE_MOVE_THROTTLE_MS: u64 = 100;

/// Minimum spacing between two flushes that only throttled moves drive.
pub const LOG_INTERVAL_MS: u64 = 500;

/// Two presses of one button closer than this count a double click.
pub const DOUBLE_CLICK_MS: u64 = 500;

/// The aggregator's whole mutable state.  It lives on the single listening
/// thread; nothing else reads or writes it.
#[derive(Clone, Copy, Debug, PartialEq, Eq, Structural)]
pub struct Aggregator {
    /// Monotonic per-session counters.
    pub metrics: Metrics,
    /// A control key is currently held.
    pub ctrl_pressed: bool,
    /// A mouse button is currently held.
    pub mouse_pressed: bool,
    /// Time of the last button press, any button.
    pub last_click_time: u64,
    /// Button of the last button press.
    pub last_click_button: ButtonKind,
    /// Time of the last move event that passed the throttle.
    pub last_mouse_log: u64,
    /// Time of the last flush.
    pub last_log_time: u64,
    /// A record is waiting to be flushed.
    pub pending_log: bool,
    /// Timestamp of the last event handled; timestamps never run backwards.
    pub clock: u64,
}

/// A key press's effect on the counters.  The C and V keys count as copy
/// and paste only while a control key is held; otherwise they are plain
/// characters, as is every unclassified key.
pub open spec fn key_metrics_after(m: Metrics, k: KeyKind, ctrl: bool) -> Metrics {
    match k {
        KeyKind::Control => Metrics { mods: crate::metrics::ModStats { ctrl: bumped(m.mods.ctrl), ..m.mods }, ..m },
        KeyKind::Alt => Metrics { mods: crate::metrics::ModStats { alt: bumped(m.mods.alt), ..m.mods }, ..m },
        KeyKind::Shift => Metrics { mods: crate::metrics::ModStats { shift: bumped(m.mods.shift), ..m.mods }, ..m },
        KeyKind::Enter => Metrics { enter_count: bumped(m.enter_count), ..m },
        KeyKind::Backspace => Metrics { backspace_count: bumped(m.backspace_count), ..m },
        KeyKind::Arrow => Metrics { nav_keys: crate::metrics::NavKeys { arrows: bumped(m.nav_keys.arrows), ..m.nav_keys }, ..m },
        KeyKind::HomeEnd => Metrics { nav_keys: crate::metrics::NavKeys { home_end: bumped(m.nav_keys.home_end), ..m.nav_keys }, ..m },
        KeyKind::Page => Metrics { nav_keys: crate::metrics::NavKeys { pgup_pgdn: bumped(m.nav_keys.pgup_pgdn), ..m.nav_keys }, ..m },
        KeyKind::Function => Metrics { function_keys: crate::metrics::FunctionKeys { f1_f12: bumped(m.function_keys.f1_f12) }, ..m },
        KeyKind::CharC => if ctrl {
            Metrics { copy_count: bumped(m.copy_count), ..m }
        } else {
            Metrics { char_count: bumped(m.char_count), ..m }
        },
        KeyKind::CharV => if ctrl {
            Metrics { paste_count: bumped(m.paste_count), ..m }
        } else {
            Metrics { char_count: bumped(m.char_count), ..m }
        },
        KeyKind::Other => Metrics { char_count: bumped(m.char_count), ..m },
    }
}

/// A press of this button at this time is the second press of a double
/// click: same button as the previous press, and strictly less than
/// `DOUBLE_CLICK_MS` after it.
pub open spec fn is_double_click(pre: Aggregator, b: ButtonKind, ts: u64) -> bool {
    ts - pre.last_click_time < DOUBLE_CLICK_MS && b == pre.last_click_button
}

/// A button press's effect on the mouse counters.
pub open spec fn click_metrics_after(ms: MouseStats, b: ButtonKind, double: bool) -> MouseStats {
    let with_double = if double {
        MouseStats { double_clicks: bumped(ms.double_clicks), ..ms }
    } else {
        ms
    };
    match b {
        ButtonKind::Left => MouseStats { left_clicks: bumped(with_double.left_clicks), ..with_double },
        ButtonKind::Right => MouseStats { right_clicks: bumped(with_double.right_clicks), ..with_double },
        ButtonKind::Middle => MouseStats { middle_clicks: bumped(with_double.middle_clicks), ..with_double },
        ButtonKind::Other => with_double,
    }
}

/// The counters after one raw event.
pub open spec fn metrics_after(pre: Aggregator, ev: InputEvent, ts: u64) -> Metrics {
    match ev {
        InputEvent::KeyPress(k) => key_metrics_after(pre.metrics, k, pre.ctrl_pressed),
        InputEvent::KeyRelease(_) => pre.metrics,
        InputEvent::ButtonPress(b) => Metrics {
            mouse: click_metrics_after(pre.metrics.mouse, b, is_double_click(pre, b, ts)),
            ..pre.metrics
        },
        InputEvent::ButtonRelease(_) => pre.metrics,
        InputEvent::MouseMove => Metrics {
            mouse: MouseStats {
                moves: bumped(pre.metrics.mouse.moves),
                drags: if pre.mouse_pressed {
                    bumped(pre.metrics.mouse.drags)
                } else {
                    pre.metrics.mouse.drags
                },
                ..pre.metrics.mouse
            },
            ..pre.metrics
        },
        InputEvent::Wheel => Metrics {
            mouse: MouseStats { scrolls: bumped(pre.metrics.mouse.scrolls), ..pre.metrics.mouse },
            ..pre.metrics
        },
    }
}

/// Events that make a record eligible for flushing by themselves: presses,
/// wheel turns.  Releases never do, and moves go through the throttle.
pub open spec fn eligible(ev: InputEvent) -> bool {
    match ev {
        InputEvent::KeyRelease(_) => false,
        InputEvent::ButtonRelease(_) => false,
        InputEvent::MouseMove => false,
        _ => true,
    }
}

/// A move at this time passes the throttle: at least
/// `MOUSE_MOVE_THROTTLE_MS` since the last move that passed.
pub open spec fn move_passes_throttle(pre: Aggregator, ts: u64) -> bool {
    ts - pre.last_mouse_log >= MOUSE_MOVE_THROTTLE_MS
}

/// The pending flag after one raw event.
pub open spec fn pending_after(pre: Aggregator, ev: InputEvent, ts: u64) -> bool {
    if ev is MouseMove {
        if move_passes_throttle(pre, ts) {
            true
        } else {
            pre.pending_log
        }
    } else if eligible(ev) {
        true
    } else {
        pre.pending_log
    }
}

/// Whether this event triggers a flush: something is pending, and either
/// the event is itself eligible or `LOG_INTERVAL_MS` have passed since the
/// last flush.
pub open spec fn flush_due(pre: Aggregator, ev: InputEvent, ts: u64) -> bool {
    pending_after(pre, ev, ts) && (eligible(ev) || ts - pre.last_log_time >= LOG_INTERVAL_MS)
}

/// The aggregator's whole state after one raw event.
pub open spec fn step(pre: Aggregator, ev: InputEvent, ts: u64) -> Aggregator {
    Aggregator {
        metrics: metrics_after(pre, ev, ts),
        ctrl_pressed: match ev {
            InputEvent::KeyPress(KeyKind::Control) => true,
            InputEvent::KeyRelease(KeyKind::Control) => false,
            _ => pre.ctrl_pressed,
        },
        mouse_pressed: match ev {
            InputEvent::ButtonPress(_) => true,
            InputEvent::ButtonRelease(_) => false,
            _ => pre.mouse_pressed,
        },
        last_click_time: if ev is ButtonPress {
            ts
        } else {
            pre.last_click_time
        },
        last_click_button: match ev {
            InputEvent::ButtonPress(b) => b,
            _ => pre.last_click_button,
        },
        last_mouse_log: if ev is MouseMove && move_passes_throttle(pre, ts) {
            ts
        } else {
            pre.last_mouse_log
        },
        last_log_time: pre.last_log_time,
        pending_log: pending_after(pre, ev, ts),
        clock: ts,
    }
}

impl Aggregator {
    /// The time fields never run ahead of the clock, so elapsed times are
    /// honest differences.
    pub open spec fn wf(&self) -> bool {
        &&& self.last_click_time <= self.clock
        &&& self.last_mouse_log <= self.clock
        &&& self.last_log_time <= self.clock
    }

    /// A fresh aggregator at session start: zero counters, nothing held,
    /// nothing pending.  The throttle and batch windows open at the start
    /// time.
    pub fn new(start_ts: u64) -> (r: Aggregator)
        ensures
            r == (Aggregator {
                metrics: Metrics::zero(),
                ctrl_pressed: false,
                mouse_pressed: false,
                last_click_time: 0,
                last_click_button: ButtonKind::Left,
                last_mouse_log: start_ts,
                last_log_time: start_ts,
                pending_log: false,
                clock: start_ts,
            }),
            r.wf(),
    {
        Aggregator {
            metrics: Metrics::new(),
            ctrl_pressed: false,
            mouse_pressed: false,
            last_click_time: 0,
            last_click_button: ButtonKind::Left,
            last_mouse_log: start_ts,
            last_log_time: start_ts,
            pending_log: false,
            clock: start_ts,
        }
    }

    /// Feeds one raw event with its timestamp; returns whether the batch is
    /// due to be flushed now.  Timestamps must not run backwards.
    pub fn handle_event(&mut self, ev: InputEvent, ts: u64) -> (due: bool)
        requires
            old(self).wf(),
            ts >= old(self).clock,
        ensures
            *final(self) == step(*old(self), ev, ts),
            due == flush_due(*old(self), ev, ts),
            final(self).wf(),
    {
        let mut should_log = true;
        match ev {
            InputEvent::KeyPress(k) => {
                match k {
                    KeyKind::Control => {
                        self.ctrl_pressed = true;
                        self.metrics.mods.ctrl = bump(self.metrics.mods.ctrl);
                    },
                    KeyKind::Alt => {
                        self.metrics.mods.alt = bump(self.metrics.mods.alt);
                    },
                    KeyKind::Shift => {
                        self.metrics.mods.shift = bump(self.metrics.mods.shift);
                    },
                    KeyKind::Enter => {
                        self.metrics.enter_count = bump(self.metrics.enter_count);
                    },
                    KeyKind::Backspace => {
                        self.metrics.backspace_count = bump(self.metrics.backspace_count);
                    },
                    KeyKind::Arrow => {
                        self.metrics.nav_keys.arrows = bump(self.metrics.nav_keys.arrows);
                    },
                    KeyKind::HomeEnd => {
                        self.metrics.nav_keys.home_end = bump(self.metrics.nav_keys.home_end);
                    },
                    KeyKind::Page => {
                        self.metrics.nav_keys.pgup_pgdn = bump(self.metrics.nav_keys.pgup_pgdn);
                    },
                    KeyKind::Function => {
                        self.metrics.function_keys.f1_f12 = bump(self.metrics.function_keys.f1_f12);
                    },
                    KeyKind::CharC => {
                        if self.ctrl_pressed {
                            self.metrics.copy_count = bump(self.metrics.copy_count);
                        } else {
                            self.metrics.char_count = bump(self.metrics.char_count);
                        }
                    },
                    KeyKind::CharV => {
                        if self.ctrl_pressed {
                            self.metrics.paste_count = bump(self.metrics.paste_count);
                        } else {
                            self.metrics.char_count = bump(self.metrics.char_count);
                        }
                    },
                    KeyKind::Other => {
                        self.metrics.char_count = bump(self.metrics.char_count);
                    },
                }
            },
            InputEvent::KeyRelease(k) => {
                if matches!(k, KeyKind::Control) {
                    self.ctrl_pressed = false;
                }
                should_log = false;
            },
            InputEvent::ButtonPress(b) => {
                self.mouse_pressed = true;
                if ts - self.last_click_time < DOUBLE_CLICK_MS && b == self.last_click_button {
                    self.metrics.mouse.double_clicks = bump(self.metrics.mouse.double_clicks);
                }
                self.last_click_time = ts;
                self.last_click_button = b;
                match b {
                    ButtonKind::Left => {
                        self.metrics.mouse.left_clicks = bump(self.metrics.mouse.left_clicks);
                    },
                    ButtonKind::Right => {
                        self.metrics.mouse.right_clicks = bump(self.metrics.mouse.right_clicks);
                    },
                    ButtonKind::Middle => {
                        self.metrics.mouse.middle_clicks = bump(self.metrics.mouse.middle_clicks);
                    },
                    ButtonKind::Other => {},
                }
            },
            InputEvent::ButtonRelease(_) => {
                self.mouse_pressed = false;
                should_log = false;
            },
            InputEvent::MouseMove => {
                self.metrics.mouse.moves = bump(self.metrics.mouse.moves);
                if self.mouse_pressed {
                    self.metrics.mouse.drags = bump(self.metrics.mouse.drags);
                }
                if ts - self.last_mouse_log < MOUSE_MOVE_THROTTLE_MS {
                    should_log = false;
                } else {
                    self.last_mouse_log = ts;
                    self.pending_log = true;
                    should_log = false;
                }
            },
            InputEvent::Wheel => {
                self.metrics.mouse.scrolls = bump(self.metrics.mouse.scrolls);
            },
        }
        if should_log {
            self.pending_log = true;
        }
        self.clock = ts;
        self.pending_log && (should_log || ts - self.last_log_time >= LOG_INTERVAL_MS)
    }

    /// Resolves a due batch into one serialized record.  The caller hands in
    /// the foreground-window context it looked up and the current ISO-8601
    /// timestamp; the record carries the metrics snapshot.  The pending flag
    /// clears and the batch window restarts at the aggregator's clock.  When
    /// no context is resolvable the caller makes no call, and the pending
    /// flag stays set for the next trigger.
    pub fn flush(&mut self, ctx: &WindowContext, iso_timestamp: &str) -> (line: String)
        requires
            old(self).wf(),
        ensures
            *final(self) == (Aggregator {
                pending_log: false,
                last_log_time: old(self).clock,
                ..*old(self)
            }),
            final(self).wf(),
            line@ == event_line(
                ctx.app_name@,
                ctx.window_title@,
                ctx.process_name@,
                ctx.pid,
                iso_timestamp@,
                old(self).metrics,
            ),
    {
        let line = event_line_string(ctx, iso_timestamp, &self.metrics);
        self.pending_log = false;
        self.last_log_time = self.clock;
        line
    }
}

/// The aggregator after a due batch was resolved at its clock time: the
/// pending flag clears and the batch window restarts.
pub open spec fn flushed(a: Aggregator) -> Aggregator {
    Aggregator { pending_log: false, last_log_time: a.clock, ..a }
}

/// How many flushes a run of raw events produces when every due batch is
/// resolved at once (the window lookup always succeeds).
pub open spec fn run_flush_count(pre: Aggregator, evs: Seq<(InputEvent, u64)>) -> nat
    decreases evs.len(),
{
    if evs.len() == 0 {
        0
    } else {
        let stepped = step(pre, evs[0].0, evs[0].1);
        let due = flush_due(pre, evs[0].0, evs[0].1);
        let next = if due {
            flushed(stepped)
        } else {
            stepped
        };
        (if due {
            1nat
        } else {
            0nat
        }) + run_flush_count(next, evs.subrange(1, evs.len() as int))
    }
}

/// A raw event triggers at most one flush, so over any run, however rapid,
/// the number of flushes never exceeds the number of raw events.
pub proof fn lemma_flushes_never_exceed_events(pre: Aggregator, evs: Seq<(InputEvent, u64)>)
    ensures
        run_flush_count(pre, evs) <= evs.len(),
    decreases evs.len(),
{
    if evs.len() > 0 {
        let stepped = step(pre, evs[0].0, evs[0].1);
        let next = if flush_due(pre, evs[0].0, evs[0].1) {
            flushed(stepped)
        } else {
            stepped
        };
        lemma_flushes_never_exceed_events(next, evs.subrange(1, evs.len() as int));
    }
}

/// Two presses of the same button closer than `DOUBLE_CLICK_MS` raise the
/// double-click counter exactly once for the pair; a gap of at least
/// `DOUBLE_CLICK_MS`, or a different button, never does.  (At the counter's
/// ceiling it saturates, so the premise keeps it below.)
pub proof fn lemma_double_click(pre: Aggregator, b1: ButtonKind, b2: ButtonKind, ts1: u64, ts2: u64)
    requires
        pre.wf(),
        ts1 >= pre.clock,
        ts2 >= ts1,
        pre.metrics.mouse.double_clicks < u64::MAX - 1,
    ensures
        ({
            let mid = step(pre, InputEvent::ButtonPress(b1), ts1);
            let post = step(mid, InputEvent::ButtonPress(b2), ts2);
            &&& (b2 == b1 && ts2 - ts1 < DOUBLE_CLICK_MS ==> post.metrics.mouse.double_clicks
                == mid.metrics.mouse.double_clicks + 1)
            &&& (ts2 - ts1 >= DOUBLE_CLICK_MS ==> post.metrics.mouse.double_clicks
                == mid.metrics.mouse.double_clicks)
            &&& (b2 != b1 ==> post.metrics.mouse.double_clicks == mid.metrics.mouse.double_clicks)
        }),
{
    let mid = step(pre, InputEvent::ButtonPress(b1), ts1);
    assert(mid.last_click_time == ts1);
    assert(mid.last_click_button == b1);
    assert(mid.metrics.mouse.double_clicks <= pre.metrics.mouse.double_clicks + 1);
}

/// A move within the throttle window sets nothing pending: when nothing was
/// pending before it, it cannot produce a flush on its own.
pub proof fn lemma_throttled_move_no_flush(pre: Aggregator, ts: u64)
    requires
        pre.wf(),
        ts >= pre.clock,
        ts - pre.last_mouse_log < MOUSE_MOVE_THROTTLE_MS,
        !pre.pending_log,
    ensures
        !flush_due(pre, InputEvent::MouseMove, ts),
        !step(pre, InputEvent::MouseMove, ts).pending_log,
{
}

/// A flush that only move activity drives comes at most once per
/// `LOG_INTERVAL_MS`: a move flushes only when that much time has passed
/// since the last flush, and a flush resets that clock.
pub proof fn lemma_move_flush_spacing(pre: Aggregator, ts: u64)
    requires
        pre.wf(),
        ts >= pre.clock,
    ensures
        flush_due(pre, InputEvent::MouseMove, ts) ==> ts - pre.last_log_time >= LOG_INTERVAL_MS,
{
}

} // verus!
