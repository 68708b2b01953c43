//! Severity levels for emitted log lines.

use vstd::prelude::*;

verus! {

/// Severity of an emitted log line, from most to least severe.
///
/// The level is attached to a counter at construction and passed, unchanged,
/// to the log sink with every line the counter emits. How a sink treats the
/// level (filtering, formatting) is entirely up to the sink.
#[derive(Clone, Copy, Debug, PartialEq, Eq, Structural)]
pub enum Level {
    Error,
    Warn,
    Info,
    Debug,
    Trace,
}

} // verus!
