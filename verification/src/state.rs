//! Process-wide capture coordination: one run flag per capture loop, the
//! last-input timestamp, and the ring buffer of recent activity records.
//!
//! The run flag is the authoritative signal for whether a loop may
//! continue; worker threads and their join handles live outside the
//! library.  Starting an already-running loop is refused; stopping the
//! video loop when it is not running is refused, while stopping the
//! screenshot loop is idempotent, as the command surface has it.

use vstd::prelude::*;
use vstd::string::StringExecFns;
use crate::aggregator::Aggregator;
use crate::events::WindowContext;
use crate::json::event_line;
use crate::ring::{recent_model, push_model, ActivityRing};

verus! {

/// The two independently lifecycled capture loops.
#[derive(Clone, Copy, Debug, PartialEq, Eq, Structural)]
pub enum LoopKind {
    Screenshot,
    Video,
}

/// Command-rejection errors of the capture surface.
#[derive(Clone, Copy, Debug, PartialEq, Eq, Structural)]
pub enum CaptureError {
    AlreadyRunning,
    NotRunning,
}

impl CaptureError {
    /// The message the command surface reports for this error and loop kind.
    pub fn message(&self, kind: LoopKind) -> (r: String)
        ensures
            r@ == error_message(*self, kind),
    {
        match (self, kind) {
            (CaptureError::AlreadyRunning, LoopKind::Screenshot) => String::from_str(
                "Capture already running",
            ),
            (CaptureError::AlreadyRunning, LoopKind::Video) => String::from_str(
                "Video capture already running",
            ),
            (CaptureError::NotRunning, LoopKind::Screenshot) => String::from_str(
                "Capture not running",
            ),
            (CaptureError::NotRunning, LoopKind::Video) => String::from_str(
                "Video capture not running",
            ),
        }
    }
}

pub open spec fn error_message(e: CaptureError, kind: LoopKind) -> Seq<char> {
    match (e, kind) {
        (CaptureError::AlreadyRunning, LoopKind::Screenshot) => "Capture already running"@,
        (CaptureError::AlreadyRunning, LoopKind::Video) => "Video capture already running"@,
        (CaptureError::NotRunning, LoopKind::Screenshot) => "Capture not running"@,
        (CaptureError::NotRunning, LoopKind::Video) => "Video capture not running"@,
    }
}

/// The started message of the command surface, per loop kind.
pub open spec fn start_message(kind: LoopKind) -> Seq<char> {
    match kind {
        LoopKind::Screenshot => "Capture started"@,
        LoopKind::Video => "Video capture loop started"@,
    }
}

/// The stopped message of the command surface, per loop kind.
pub open spec fn stop_message(kind: LoopKind) -> Seq<char> {
    match kind {
        LoopKind::Screenshot => "Capture stopped"@,
        LoopKind::Video => "Video capture stopped"@,
    }
}

/// The process-wide shared coordination state.
pub struct CaptureState {
    /// The screenshot loop's run flag.
    pub screenshot_running: bool,
    /// The video loop's run flag.
    pub video_running: bool,
    /// Time of the last raw input event, milliseconds since the epoch;
    /// never decreases.
    pub last_input_ts_millis: u64,
    /// The bounded store of recent serialized activity records.
    pub ring: ActivityRing,
}

/// The run flag of one loop kind.
pub open spec fn flag_of(s: CaptureState, kind: LoopKind) -> bool {
    match kind {
        LoopKind::Screenshot => s.screenshot_running,
        LoopKind::Video => s.video_running,
    }
}

/// The state with one loop's flag set or cleared, everything else kept.
pub open spec fn with_flag(s: CaptureState, kind: LoopKind, v: bool) -> CaptureState {
    match kind {
        LoopKind::Screenshot => CaptureState { screenshot_running: v, ..s },
        LoopKind::Video => CaptureState { video_running: v, ..s },
    }
}

/// What a start command leaves behind: the flag set when it was clear,
/// everything untouched when the loop already ran.
pub open spec fn start_model(s: CaptureState, kind: LoopKind) -> CaptureState {
    if flag_of(s, kind) {
        s
    } else {
        with_flag(s, kind, true)
    }
}

/// What a stop command (strict form) leaves behind.
pub open spec fn stop_model(s: CaptureState, kind: LoopKind) -> CaptureState {
    if flag_of(s, kind) {
        with_flag(s, kind, false)
    } else {
        s
    }
}

/// The last-input timestamp after an input event at `now`: it moves forward
/// to `now` and never backward.
pub open spec fn touched(last: u64, now: u64) -> u64 {
    if now >= last {
        now
    } else {
        last
    }
}

/// Idleness at time `now` against a threshold in seconds: the time since
/// the last input event strictly exceeds the threshold.
pub open spec fn idle_spec(last: u64, now: u64, threshold_secs: u64) -> bool {
    now - last > threshold_secs * 1000
}

impl CaptureState {
    pub open spec fn wf(&self) -> bool {
        self.ring.wf()
    }

    /// A fresh state: no loop running, an empty ring buffer, and the
    /// last-input timestamp set to the clock at creation.
    pub fn new() -> (r: CaptureState)
        ensures
            !r.screenshot_running,
            !r.video_running,
            r.ring@ == Seq::<String>::empty(),
            r.wf(),
    {
        CaptureState {
            screenshot_running: false,
            video_running: false,
            last_input_ts_millis: crate::clock::current_ts_millis(),
            ring: ActivityRing::new(),
        }
    }

    /// Starts a capture loop: refused with `AlreadyRunning` when its flag is
    /// already set, otherwise the flag is set and the caller may spawn the
    /// worker.
    pub fn start(&mut self, kind: LoopKind) -> (r: Result<String, CaptureError>)
        ensures
            *final(self) == start_model(*old(self), kind),
            r is Ok <==> !flag_of(*old(self), kind),
            r is Ok ==> (r->Ok_0)@ == start_message(kind),
            r is Err ==> r->Err_0 == CaptureError::AlreadyRunning,
    {
        let running = match kind {
            LoopKind::Screenshot => self.screenshot_running,
            LoopKind::Video => self.video_running,
        };
        if running {
            return Err(CaptureError::AlreadyRunning);
        }
        match kind {
            LoopKind::Screenshot => {
                self.screenshot_running = true;
                Ok(String::from_str("Capture started"))
            },
            LoopKind::Video => {
                self.video_running = true;
                Ok(String::from_str("Video capture loop started"))
            },
        }
    }

    /// Stops a capture loop, strict form: refused with `NotRunning` when its
    /// flag is already clear, otherwise the flag clears and the caller joins
    /// the worker, which observes the flag within its polling granularity.
    pub fn stop(&mut self, kind: LoopKind) -> (r: Result<String, CaptureError>)
        ensures
            *final(self) == stop_model(*old(self), kind),
            r is Ok <==> flag_of(*old(self), kind),
            r is Ok ==> (r->Ok_0)@ == stop_message(kind),
            r is Err ==> r->Err_0 == CaptureError::NotRunning,
    {
        let running = match kind {
            LoopKind::Screenshot => self.screenshot_running,
            LoopKind::Video => self.video_running,
        };
        if !running {
            return Err(CaptureError::NotRunning);
        }
        match kind {
            LoopKind::Screenshot => {
                self.screenshot_running = false;
                Ok(String::from_str("Capture stopped"))
            },
            LoopKind::Video => {
                self.video_running = false;
                Ok(String::from_str("Video capture stopped"))
            },
        }
    }

    /// The run flag of one loop, non-blocking.
    pub fn status(&self, kind: LoopKind) -> (r: bool)
        ensures
            r == flag_of(*self, kind),
    {
        match kind {
            LoopKind::Screenshot => self.screenshot_running,
            LoopKind::Video => self.video_running,
        }
    }

    /// Starts the screenshot loop.
    pub fn start_capture(&mut self) -> (r: Result<String, CaptureError>)
        ensures
            *final(self) == start_model(*old(self), LoopKind::Screenshot),
            r is Ok <==> !old(self).screenshot_running,
            r is Ok ==> (r->Ok_0)@ == start_message(LoopKind::Screenshot),
            r is Err ==> r->Err_0 == CaptureError::AlreadyRunning,
    {
        self.start(LoopKind::Screenshot)
    }

    /// Stops the screenshot loop; idempotent, as the command surface has it:
    /// stopping an already-stopped loop succeeds and changes nothing.
    pub fn stop_capture(&mut self) -> (r: String)
        ensures
            *final(self) == with_flag(*old(self), LoopKind::Screenshot, false),
            r@ == stop_message(LoopKind::Screenshot),
    {
        self.screenshot_running = false;
        String::from_str("Capture stopped")
    }

    /// The screenshot loop's run flag.
    pub fn capture_status(&self) -> (r: bool)
        ensures
            r == self.screenshot_running,
    {
        self.screenshot_running
    }

    /// Starts the video loop.
    pub fn start_video_capture(&mut self) -> (r: Result<String, CaptureError>)
        ensures
            *final(self) == start_model(*old(self), LoopKind::Video),
            r is Ok <==> !old(self).video_running,
            r is Ok ==> (r->Ok_0)@ == start_message(LoopKind::Video),
            r is Err ==> r->Err_0 == CaptureError::AlreadyRunning,
    {
        self.start(LoopKind::Video)
    }

    /// Stops the video loop; refused with `NotRunning` when it is not
    /// running.
    pub fn stop_video_capture(&mut self) -> (r: Result<String, CaptureError>)
        ensures
            *final(self) == stop_model(*old(self), LoopKind::Video),
            r is Ok <==> old(self).video_running,
            r is Ok ==> (r->Ok_0)@ == stop_message(LoopKind::Video),
            r is Err ==> r->Err_0 == CaptureError::NotRunning,
    {
        self.stop(LoopKind::Video)
    }

    /// Notes a raw input event at `now`: the last-input timestamp moves
    /// forward to `now` and never backward, whatever the throttling
    /// elsewhere decides.
    pub fn touch_input(&mut self, now: u64)
        ensures
            *final(self) == (CaptureState {
                last_input_ts_millis: touched(old(self).last_input_ts_millis, now),
                ..*old(self)
            }),
    {
        if now >= self.last_input_ts_millis {
            self.last_input_ts_millis = now;
        }
    }

    /// Idleness at time `now`: true iff the time since the last input event
    /// strictly exceeds `threshold_secs` seconds.
    pub fn is_idle(&self, now: u64, threshold_secs: u64) -> (r: bool)
        requires
            threshold_secs <= u64::MAX / 1000,
        ensures
            r == idle_spec(self.last_input_ts_millis, now, threshold_secs),
    {
        let elapsed = if now >= self.last_input_ts_millis {
            now - self.last_input_ts_millis
        } else {
            0
        };
        elapsed > threshold_secs * 1000
    }

    /// The most recent activity records, oldest first; the limit defaults
    /// to 50 and is capped at the ring's capacity.
    pub fn get_recent_activity(&self, limit: Option<usize>) -> (r: Vec<String>)
        ensures
            r@ == recent_model(self.ring@, limit),
    {
        self.ring.get_recent(limit)
    }

    /// Empties the ring buffer; the durable log and the metrics are not
    /// touched.
    pub fn clear_activity(&mut self)
        ensures
            final(self).ring@ == Seq::<String>::empty(),
            final(self).screenshot_running == old(self).screenshot_running,
            final(self).video_running == old(self).video_running,
            final(self).last_input_ts_millis == old(self).last_input_ts_millis,
            final(self).wf(),
    {
        self.ring.clear();
    }

    /// Stores one serialized activity record in the ring buffer; the oldest
    /// record leaves when the buffer is full.
    pub fn push_activity(&mut self, line: String)
        requires
            old(self).wf(),
        ensures
            final(self).ring@ == push_model(old(self).ring@, line),
            final(self).screenshot_running == old(self).screenshot_running,
            final(self).video_running == old(self).video_running,
            final(self).last_input_ts_millis == old(self).last_input_ts_millis,
            final(self).wf(),
    {
        self.ring.push(line);
    }
}

/// One full flush as the single listener thread performs it: the pending
/// batch becomes one serialized record, which is stored in the ring buffer
/// and handed back, the same line, for the append-only log.  Records appear
/// in buffer and log in the order the listener flushed them.
pub fn flush_into(
    agg: &mut Aggregator,
    state: &mut CaptureState,
    ctx: &WindowContext,
    iso_timestamp: &str,
) -> (line: String)
    requires
        old(agg).wf(),
        old(state).wf(),
    ensures
        *final(agg) == (Aggregator {
            pending_log: false,
            last_log_time: old(agg).clock,
            ..*old(agg)
        }),
        final(agg).wf(),
        line@ == event_line(
            ctx.app_name@,
            ctx.window_title@,
            ctx.process_name@,
            ctx.pid,
            iso_timestamp@,
            old(agg).metrics,
        ),
        final(state).ring@ == push_model(old(state).ring@, line),
        final(state).screenshot_running == old(state).screenshot_running,
        final(state).video_running == old(state).video_running,
        final(state).last_input_ts_millis == old(state).last_input_ts_millis,
        final(state).wf(),
{
    let line = agg.flush(ctx, iso_timestamp);
    state.push_activity(line.clone());
    line
}

/// Two starts in a row on one loop kind: the first succeeds and the second
/// is refused with `AlreadyRunning`, whatever the kind.
pub proof fn lemma_start_then_start(s: CaptureState, kind: LoopKind)
    requires
        !flag_of(s, kind),
    ensures
        flag_of(start_model(s, kind), kind),
        start_model(start_model(s, kind), kind) == start_model(s, kind),
{
}

/// Two stops in a row on the video loop: after a successful stop the flag
/// is clear, so the second stop is refused with `NotRunning`.
pub proof fn lemma_stop_then_stop_video(s: CaptureState)
    requires
        flag_of(s, LoopKind::Video),
    ensures
        !flag_of(stop_model(s, LoopKind::Video), LoopKind::Video),
        stop_model(stop_model(s, LoopKind::Video), LoopKind::Video)
            == stop_model(s, LoopKind::Video),
{
}

/// Immediately after any input event, idleness is false for every
/// threshold: the elapsed time is zero (or the clock even ran backward),
/// never strictly more than a whole second threshold.
pub proof fn lemma_not_idle_after_touch(last: u64, now: u64, threshold_secs: u64)
    ensures
        !idle_spec(touched(last, now), now, threshold_secs),
{
}

} // verus!
