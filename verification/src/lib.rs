//! Wrap a byte-input source with a read statistics logger.
//!
//! A `ReadStatsLogger` counts read operations and bytes transferred and
//! emits one structured log line per read through an injected `LogSink`.
//! A `ReadLogger` wraps any `Readable` (and optionally `Seekable`)
//! source and records every read in its embedded counter.

pub mod digits;
pub mod level;
pub mod line;
pub mod reader;
pub mod readers;
pub mod sink;
pub mod stats;

pub use level::Level;
pub use reader::{ReadError, ReadLogger, Readable, SeekFrom, Seekable};
pub use readers::{BufferedReader, SliceReader};
pub use sink::{LogSink, VecSink};
pub use stats::{Policy, ReadStatsLogger};
