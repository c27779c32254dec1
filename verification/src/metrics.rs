//! Per-session input metrics: monotonic counters owned by the aggregator's
//! thread for the lifetime of the process.  Only serialized snapshots of
//! them are ever shared; clearing the ring buffer does not reset them.

use vstd::prelude::*;

verus! {

/// Modifier-key press counts.
#[derive(Clone, Copy, Debug, PartialEq, Eq, Structural)]
pub struct ModStats {
    pub alt: u64,
    pub shift: u64,
    pub ctrl: u64,
}

/// Navigation-key press counts.
#[derive(Clone, Copy, Debug, PartialEq, Eq, Structural)]
pub struct NavKeys {
    pub pgup_pgdn: u64,
    pub arrows: u64,
    pub home_end: u64,
}

/// Function-key press count.
#[derive(Clone, Copy, Debug, PartialEq, Eq, Structural)]
pub struct FunctionKeys {
    pub f1_f12: u64,
}

/// Mouse statistics.
#[derive(Clone, Copy, Debug, PartialEq, Eq, Structural)]
pub struct MouseStats {
    pub left_clicks: u64,
    pub right_clicks: u64,
    pub middle_clicks: u64,
    pub scrolls: u64,
    pub moves: u64,
    pub double_clicks: u64,
    pub drags: u64,
}

/// The full metrics snapshot serialized into every activity record.
#[derive(Clone, Copy, Debug, PartialEq, Eq, Structural)]
pub struct Metrics {
    pub kpm: u64,
    pub char_count: u64,
    pub backspace_count: u64,
    pub enter_count: u64,
    pub copy_count: u64,
    pub paste_count: u64,
    pub mods: ModStats,
    pub nav_keys: NavKeys,
    pub function_keys: FunctionKeys,
    pub mouse: MouseStats,
}

/// A counter bumped by one; at the type's ceiling it stays put rather than
/// wrap.
pub open spec fn bumped(c: u64) -> u64 {
    if c == u64::MAX {
        c
    } else {
        (c + 1) as u64
    }
}

/// Bumps a counter by one, saturating at the type's ceiling.
pub fn bump(c: u64) -> (r: u64)
    ensures
        r == bumped(c),
{
    if c == u64::MAX {
        c
    } else {
        c + 1
    }
}

impl Metrics {
    /// All counters start at zero.
    pub fn new() -> (r: Metrics)
        ensures
            r == Metrics::zero(),
    {
        Metrics {
            kpm: 0,
            char_count: 0,
            backspace_count: 0,
            enter_count: 0,
            copy_count: 0,
            paste_count: 0,
            mods: ModStats { alt: 0, shift: 0, ctrl: 0 },
            nav_keys: NavKeys { pgup_pgdn: 0, arrows: 0, home_end: 0 },
            function_keys: FunctionKeys { f1_f12: 0 },
            mouse: MouseStats {
                left_clicks: 0,
                right_clicks: 0,
                middle_clicks: 0,
                scrolls: 0,
                moves: 0,
                double_clicks: 0,
                drags: 0,
            },
        }
    }

    pub open spec fn zero() -> Metrics {
        Metrics {
            kpm: 0,
            char_count: 0,
            backspace_count: 0,
            enter_count: 0,
            copy_count: 0,
            paste_count: 0,
            mods: ModStats { alt: 0, shift: 0, ctrl: 0 },
            nav_keys: NavKeys { pgup_pgdn: 0, arrows: 0, home_end: 0 },
            function_keys: FunctionKeys { f1_f12: 0 },
            mouse: MouseStats {
                left_clicks: 0,
                right_clicks: 0,
                middle_clicks: 0,
                scrolls: 0,
                moves: 0,
                double_clicks: 0,
                drags: 0,
            },
        }
    }
}

} // verus!
