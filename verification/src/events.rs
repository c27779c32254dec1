//! Plain-value model of the raw input events and of the foreground-window
//! context that the aggregator consumes.
//!
//! The global hook delivers platform-specific events; the caller classifies
//! each key into the kind the metrics distinguish and hands the event here
//! together with its timestamp in milliseconds.  Coordinates and wheel
//! deltas play no part in the aggregation policy and are not carried.

use vstd::prelude::*;

verus! {

/// The key classes the metrics tell apart.  `CharC` and `CharV` stand for
/// the plain C and V keys, which count as copy or paste only while a
/// control key is held.
#[derive(Clone, Copy, Debug, PartialEq, Eq, Structural)]
pub enum KeyKind {
    Control,
    Alt,
    Shift,
    Enter,
    Backspace,
    Arrow,
    HomeEnd,
    Page,
    Function,
    CharC,
    CharV,
    Other,
}

/// The mouse buttons the metrics tell apart.
#[derive(Clone, Copy, Debug, PartialEq, Eq, Structural)]
pub enum ButtonKind {
    Left,
    Right,
    Middle,
    Other,
}

/// One raw input event as the aggregation policy sees it.
#[derive(Clone, Copy, Debug, PartialEq, Eq, Structural)]
pub enum InputEvent {
    KeyPress(KeyKind),
    KeyRelease(KeyKind),
    ButtonPress(ButtonKind),
    ButtonRelease(ButtonKind),
    MouseMove,
    Wheel,
}

/// The foreground window at flush time: process name, window title and
/// process id, as the OS query facility reports them.  The application
/// name repeats the process name.
#[derive(Clone, Debug)]
pub struct WindowContext {
    pub app_name: String,
    pub process_name: String,
    pub window_title: String,
    pub pid: u32,
}

} // verus!
