//! The structured-logging facility the counters emit through.
//!
//! The counter depends on a single capability — emit one line of text at
//! a given severity level — injected at construction, so the component
//! stays testable without process-wide logger configuration. A sink that
//! keeps the lines in memory is provided here; a sink that forwards to a
//! process-wide logging facade can be supplied by the embedding program.

use crate::level::Level;
use vstd::prelude::*;

verus! {

/// A destination for emitted log lines.
///
/// `lines()` is the sink's model: every line ever emitted through it, in
/// order. `emit` appends exactly the given line; what else a sink does
/// with it (filtering by level, writing it somewhere) is its own affair.
pub trait LogSink: Sized {
    /// The lines emitted through this sink so far, oldest first.
    ///
    /// The default — no lines, ever — is only for sinks written outside
    /// verified code (say, one forwarding to a process-wide logging
    /// facade): `emit`'s contract cannot be satisfied against it. A sink
    /// implemented in verified code gives its own model.
    open spec fn lines(&self) -> Seq<Seq<char>> {
        Seq::<Seq<char>>::empty()
    }

    /// Emits one line at the given severity level.
    fn emit(&mut self, level: Level, line: String)
        ensures
            final(self).lines() == old(self).lines().push(line@),
    ;
}

/// A sink that keeps every emitted line in memory, for inspection.
pub struct VecSink {
    /// The emitted lines, oldest first.
    pub entries: Vec<String>,
}

impl VecSink {
    /// An empty sink.
    pub fn new() -> (r: VecSink)
        ensures
            r.lines() == Seq::<Seq<char>>::empty(),
    {
        let r = VecSink { entries: Vec::new() };
        proof {
            assert(r.lines() =~= Seq::<Seq<char>>::empty());
        }
        r
    }
}

impl LogSink for VecSink {
    open spec fn lines(&self) -> Seq<Seq<char>> {
        self.entries.deep_view()
    }

    fn emit(&mut self, level: Level, line: String) {
        let ghost l = line@;
        self.entries.push(line);
        proof {
            assert(self.lines() =~= old(self).lines().push(l));
        }
    }
}

} // verus!
