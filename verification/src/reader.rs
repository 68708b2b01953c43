//! The readable/seekable capability abstraction and the instrumented reader.

use crate::level::Level;
use crate::sink::LogSink;
use crate::stats::{Policy, ReadStatsLogger};
use vstd::prelude::*;

verus! {

/// Failure raised by a read or seek. The decorator never produces one of
/// its own: it only passes through, unchanged, what the wrapped source
/// raised.
#[derive(Clone, Copy, Debug, PartialEq, Eq, Structural)]
pub struct ReadError;

/// A position to move a read cursor to: absolute from the start, or
/// relative to the end or to the current position.
#[derive(Clone, Copy, Debug, PartialEq, Eq, Structural)]
pub enum SeekFrom {
    Start(u64),
    End(i64),
    Current(i64),
}

/// Capability to request bytes into a caller-provided buffer.
pub trait Readable: Sized {
    /// Validity of the source's internal state, established at
    /// construction and preserved by every operation.
    spec fn inv(&self) -> bool;

    /// Reads into a prefix of `buf`, returning how many bytes were placed
    /// there, or the source's failure. At most `buf.len()` bytes are
    /// delivered and `buf` keeps its length.
    fn read(&mut self, buf: &mut Vec<u8>) -> (r: Result<usize, ReadError>)
        requires
            old(self).inv(),
        ensures
            final(self).inv(),
            final(buf).len() == old(buf).len(),
            r matches Ok(n) ==> n <= old(buf).len(),
    ;
}

/// Capability to move an internal read cursor, returning the new absolute
/// offset.
pub trait Seekable: Readable {
    /// Moves the cursor as `pos` directs, returning the new absolute
    /// offset, or the source's failure.
    fn seek(&mut self, pos: SeekFrom) -> (r: Result<u64, ReadError>)
        requires
            old(self).inv(),
        ensures
            final(self).inv(),
    ;
}

/// Wraps a [`Readable`] source with a [`ReadStatsLogger`]: every read is
/// delegated to the source and recorded in the counter before the call
/// returns; seeks are delegated and never recorded.
pub struct ReadLogger<T: Readable, S: LogSink> {
    inner: T,
    logger: ReadStatsLogger<S>,
}

impl<T: Readable, S: LogSink> ReadLogger<T, S> {
    /// The embedded counter.
    pub closed spec fn spec_stats(&self) -> ReadStatsLogger<S> {
        self.logger
    }

    /// The wrapped source.
    pub closed spec fn spec_inner(&self) -> T {
        self.inner
    }

    /// Validity: the counter is well formed and the source valid.
    pub open spec fn wf(&self) -> bool {
        &&& self.spec_stats().wf()
        &&& self.spec_inner().inv()
    }

    /// Wraps `read`, counting under the given policy. The embedded
    /// counter initializes — and its header line is emitted — before any
    /// read can occur.
    pub fn with_policy(read: T, policy: Policy, level: Level, tag: &str, sink: S) -> (r: Self)
        requires
            read.inv(),
        ensures
            r.wf(),
            r.spec_inner() == read,
            ReadStatsLogger::initialized(r.spec_stats(), policy, level, tag@, sink.lines()),
    {
        ReadLogger { inner: read, logger: ReadStatsLogger::with_policy(policy, level, tag, sink) }
    }

    /// Wraps `read` under the delivery-counting policy (the default).
    pub fn new(read: T, level: Level, tag: &str, sink: S) -> (r: Self)
        requires
            read.inv(),
        ensures
            r.wf(),
            r.spec_inner() == read,
            ReadStatsLogger::initialized(
                r.spec_stats(),
                Policy::Delivery,
                level,
                tag@,
                sink.lines(),
            ),
    {
        Self::with_policy(read, Policy::Delivery, level, tag, sink)
    }

    /// A read-only view of the counter: its `read_count` and
    /// `bytes_total` fields are the externally observable state.
    pub fn stats(&self) -> (s: &ReadStatsLogger<S>)
        ensures
            *s == self.spec_stats(),
    {
        &self.logger
    }

    /// Releases the wrapped source, dropping the counter.
    pub fn into_inner(self) -> (t: T)
        requires
            self.wf(),
        ensures
            t == self.spec_inner(),
            t.inv(),
    {
        self.inner
    }

    /// Reads from the wrapped source into `buf` and records the read.
    ///
    /// Under the request-counting policy the read is recorded before it
    /// is issued, with the requested length `buf.len()`, so a failing
    /// read still counts — counts reflect requests issued. Under the
    /// delivery-counting policy only a successful read is recorded, with
    /// the delivered length, keeping `buf.len()` as the requested-length
    /// diagnostic; a failing read leaves the counter untouched. Either
    /// way the source's failure, if any, is returned unchanged.
    pub fn read(&mut self, buf: &mut Vec<u8>) -> (r: Result<usize, ReadError>)
        requires
            old(self).wf(),
        ensures
            final(self).wf(),
            final(buf).len() == old(buf).len(),
            match r {
                Ok(n) => {
                    &&& n <= old(buf).len()
                    &&& if old(self).spec_stats().policy_spec() == Policy::Request {
                        ReadStatsLogger::records_one(
                            old(self).spec_stats(),
                            final(self).spec_stats(),
                            0,
                            old(buf).len(),
                            old(buf).len(),
                        )
                    } else {
                        ReadStatsLogger::records_one(
                            old(self).spec_stats(),
                            final(self).spec_stats(),
                            0,
                            n,
                            old(buf).len(),
                        )
                    }
                },
                Err(_) => {
                    if old(self).spec_stats().policy_spec() == Policy::Request {
                        ReadStatsLogger::records_one(
                            old(self).spec_stats(),
                            final(self).spec_stats(),
                            0,
                            old(buf).len(),
                            old(buf).len(),
                        )
                    } else {
                        final(self).spec_stats() == old(self).spec_stats()
                    }
                },
            },
    {
        let request_length = buf.len();
        match self.logger.policy() {
            Policy::Request => {
                self.logger.log(0, request_length, request_length);
                self.inner.read(buf)
            },
            Policy::Delivery => {
                let r = self.inner.read(buf);
                match r {
                    Ok(n) => {
                        self.logger.log(0, n, request_length);
                        Ok(n)
                    },
                    Err(e) => Err(e),
                }
            },
        }
    }
}

impl<T: Seekable, S: LogSink> ReadLogger<T, S> {
    /// Delegates to the wrapped source's seek. Seeking is never recorded:
    /// the counter is left exactly as it was.
    pub fn seek(&mut self, pos: SeekFrom) -> (r: Result<u64, ReadError>)
        requires
            old(self).wf(),
        ensures
            final(self).wf(),
            final(self).spec_stats() == old(self).spec_stats(),
    {
        self.inner.seek(pos)
    }
}

impl<T: Readable, S: LogSink> Readable for ReadLogger<T, S> {
    open spec fn inv(&self) -> bool {
        self.wf()
    }

    fn read(&mut self, buf: &mut Vec<u8>) -> (r: Result<usize, ReadError>) {
        ReadLogger::read(self, buf)
    }
}

impl<T: Seekable, S: LogSink> Seekable for ReadLogger<T, S> {
    fn seek(&mut self, pos: SeekFrom) -> (r: Result<u64, ReadError>) {
        ReadLogger::seek(self, pos)
    }
}

} // verus!
