//! Core of a background activity-telemetry agent.
//!
//! The library holds the verified heart of the agent: the bounded ring
//! buffer of recent activity records, the capture-loop coordination state,
//! the input-event aggregator with its throttling and batching policy, the
//! JSON line format for activity records, and the pixel and file-name
//! conversions of the capture loops.  Threads, the global input hook, the
//! screen grabber and all file writing live outside the library and drive
//! it through plain values.

pub mod aggregator;
pub mod capture;
pub mod clock;
pub mod events;
pub mod json;
pub mod login;
pub mod metrics;
pub mod ring;
pub mod state;
pub mod text;
