//! Concrete readable sources: an in-memory cursor and a buffering layer.

use crate::reader::{ReadError, Readable, SeekFrom, Seekable};
use vstd::prelude::*;

verus! {

/// Copies `k` bytes of `src`, starting at `src_off`, into the first `k`
/// positions of `dst`, leaving the rest of `dst` unchanged.
fn copy_into(dst: &mut Vec<u8>, src: &Vec<u8>, src_off: usize, k: usize)
    requires
        k <= old(dst).len(),
        src_off + k <= src.len(),
    ensures
        final(dst)@.len() == old(dst)@.len(),
        forall|j: int| 0 <= j < k ==> final(dst)@[j] == src@[src_off + j],
        forall|j: int| k <= j < old(dst)@.len() ==> final(dst)@[j] == old(dst)@[j],
{
    let mut i: usize = 0;
    while i < k
        invariant
            i <= k,
            k <= dst.len(),
            src_off + k <= src.len(),
            dst@.len() == old(dst)@.len(),
            forall|j: int| 0 <= j < i ==> dst@[j] == src@[src_off + j],
            forall|j: int| i <= j < dst@.len() ==> dst@[j] == old(dst)@[j],
        decreases k - i,
    {
        let b = src[src_off + i];
        dst[i] = b;
        i += 1;
    }
}

/// An in-memory byte source with a cursor, readable and seekable.
///
/// The cursor may stand past the end of the data (a seek can put it
/// there); reads from there deliver nothing.
pub struct SliceReader {
    data: Vec<u8>,
    pos: usize,
}

/// Where a seek directed to, relative to a source of length `len` with
/// its cursor at `cur`; may be negative or exceed the cursor's range.
pub open spec fn seek_target(len: nat, cur: nat, pos: SeekFrom) -> int {
    match pos {
        SeekFrom::Start(p) => p as int,
        SeekFrom::End(d) => len + d,
        SeekFrom::Current(d) => cur + d,
    }
}

impl SliceReader {
    /// The bytes this reader serves.
    pub closed spec fn data_spec(&self) -> Seq<u8> {
        self.data@
    }

    /// The cursor: the offset the next read starts at.
    pub closed spec fn pos_spec(&self) -> nat {
        self.pos as nat
    }

    /// How many bytes remain from the cursor to the end.
    pub open spec fn remaining(&self) -> nat {
        if self.pos_spec() <= self.data_spec().len() {
            (self.data_spec().len() - self.pos_spec()) as nat
        } else {
            0
        }
    }

    /// A reader over `data` with the cursor at the start.
    pub fn new(data: Vec<u8>) -> (r: Self)
        ensures
            r.inv(),
            r.data_spec() == data@,
            r.pos_spec() == 0,
    {
        SliceReader { data, pos: 0 }
    }

    /// Resolves `base + d`, failing when the result is no valid offset.
    fn resolve(base: usize, d: i64) -> (r: Result<usize, ReadError>)
        ensures
            match r {
                Ok(p) => 0 <= base + d <= usize::MAX && p == base + d,
                Err(_) => base + d < 0 || base + d > usize::MAX,
            },
    {
        let t: i128 = base as i128 + d as i128;
        if 0 <= t && t <= usize::MAX as i128 {
            Ok(t as usize)
        } else {
            Err(ReadError)
        }
    }

    /// Reads into a prefix of `buf`: delivers the smaller of `buf.len()`
    /// and what remains, advancing the cursor by as much.
    pub fn read(&mut self, buf: &mut Vec<u8>) -> (r: Result<usize, ReadError>)
        ensures
            final(buf)@.len() == old(buf)@.len(),
            final(self).data_spec() == old(self).data_spec(),
            r matches Ok(n) ==> {
                &&& n == if old(buf)@.len() <= old(self).remaining() {
                    old(buf)@.len()
                } else {
                    old(self).remaining()
                }
                &&& final(self).pos_spec() == old(self).pos_spec() + n
                &&& forall|j: int|
                    0 <= j < n ==> final(buf)@[j] == old(self).data_spec()[old(
                        self,
                    ).pos_spec() + j]
                &&& forall|j: int| n <= j < old(buf)@.len() ==> final(buf)@[j] == old(buf)@[j]
            },
            r is Ok,
    {
        let avail = if self.pos <= self.data.len() {
            self.data.len() - self.pos
        } else {
            0
        };
        let k = if buf.len() < avail {
            buf.len()
        } else {
            avail
        };
        if k > 0 {
            copy_into(buf, &self.data, self.pos, k);
        }
        self.pos = self.pos + k;
        Ok(k)
    }

    /// Moves the cursor to where `pos` directs and returns the new
    /// offset. Fails exactly when the target is negative or does not fit
    /// the cursor; the cursor is then unmoved. A target past the end of
    /// the data is allowed, as it is for a real cursor.
    pub fn seek(&mut self, pos: SeekFrom) -> (r: Result<u64, ReadError>)
        ensures
            final(self).data_spec() == old(self).data_spec(),
            match r {
                Ok(p) => {
                    &&& 0 <= seek_target(old(self).data_spec().len(), old(self).pos_spec(), pos)
                        <= usize::MAX
                    &&& p as int == seek_target(
                        old(self).data_spec().len(),
                        old(self).pos_spec(),
                        pos,
                    )
                    &&& final(self).pos_spec() as int == seek_target(
                        old(self).data_spec().len(),
                        old(self).pos_spec(),
                        pos,
                    )
                },
                Err(_) => {
                    &&& (seek_target(old(self).data_spec().len(), old(self).pos_spec(), pos) < 0
                        || seek_target(old(self).data_spec().len(), old(self).pos_spec(), pos)
                        > usize::MAX)
                    &&& final(self).pos_spec() == old(self).pos_spec()
                },
            },
    {
        match pos {
            SeekFrom::Start(p) => {
                if p <= usize::MAX as u64 {
                    self.pos = p as usize;
                    Ok(p)
                } else {
                    Err(ReadError)
                }
            },
            SeekFrom::End(d) => {
                let len = self.data.len();
                match Self::resolve(len, d) {
                    Ok(np) => {
                        self.pos = np;
                        Ok(np as u64)
                    },
                    Err(e) => Err(e),
                }
            },
            SeekFrom::Current(d) => {
                let cur = self.pos;
                match Self::resolve(cur, d) {
                    Ok(np) => {
                        self.pos = np;
                        Ok(np as u64)
                    },
                    Err(e) => Err(e),
                }
            },
        }
    }
}

impl Readable for SliceReader {
    open spec fn inv(&self) -> bool {
        true
    }

    fn read(&mut self, buf: &mut Vec<u8>) -> (r: Result<usize, ReadError>) {
        SliceReader::read(self, buf)
    }
}

impl Seekable for SliceReader {
    fn seek(&mut self, pos: SeekFrom) -> (r: Result<u64, ReadError>) {
        SliceReader::seek(self, pos)
    }
}

/// How many bytes a [`BufferedReader`] asks its source for at a time
/// when built with [`BufferedReader::new`].
pub const DEFAULT_CAPACITY: usize = 8192;

/// A buffering layer over any readable source: fills an internal buffer
/// with one larger read of the source and serves callers from it, so
/// several small reads at this layer can cost a single read below.
pub struct BufferedReader<R: Readable> {
    inner: R,
    buf: Vec<u8>,
    pos: usize,
    cap: usize,
}

impl<R: Readable> BufferedReader<R> {
    /// The wrapped source.
    pub closed spec fn spec_inner(&self) -> R {
        self.inner
    }

    /// Buffers `inner` with the default capacity.
    pub fn new(inner: R) -> (r: Self)
        requires
            inner.inv(),
        ensures
            r.inv(),
            r.spec_inner() == inner,
    {
        Self::with_capacity(DEFAULT_CAPACITY, inner)
    }

    /// Buffers `inner`, asking it for `capacity` bytes at a time.
    pub fn with_capacity(capacity: usize, inner: R) -> (r: Self)
        requires
            1 <= capacity,
            inner.inv(),
        ensures
            r.inv(),
            r.spec_inner() == inner,
    {
        BufferedReader { inner, buf: Vec::new(), pos: 0, cap: capacity }
    }

    /// Releases the wrapped source, dropping whatever is buffered.
    pub fn into_inner(self) -> (t: R)
        requires
            self.inv(),
        ensures
            t == self.spec_inner(),
            t.inv(),
    {
        self.inner
    }

    /// Reads into a prefix of `buf`, refilling the internal buffer from
    /// the source first if it is spent. A source failure during a refill
    /// is returned unchanged; otherwise the delivered bytes come from the
    /// buffer.
    pub fn read(&mut self, buf: &mut Vec<u8>) -> (r: Result<usize, ReadError>)
        requires
            old(self).inv(),
        ensures
            final(self).inv(),
            final(buf)@.len() == old(buf)@.len(),
            r matches Ok(n) ==> n <= old(buf)@.len(),
    {
        if buf.len() == 0 {
            return Ok(0);
        }
        if self.pos == self.buf.len() {
            let mut fresh: Vec<u8> = vec![0u8; self.cap];
            match self.inner.read(&mut fresh) {
                Err(e) => {
                    return Err(e);
                },
                Ok(n) => {
                    fresh.truncate(n);
                    self.buf = fresh;
                    self.pos = 0;
                    if n == 0 {
                        return Ok(0);
                    }
                },
            }
        }
        let avail = self.buf.len() - self.pos;
        let k = if buf.len() < avail {
            buf.len()
        } else {
            avail
        };
        if k > 0 {
            copy_into(buf, &self.buf, self.pos, k);
        }
        self.pos = self.pos + k;
        Ok(k)
    }
}

impl<R: Readable> Readable for BufferedReader<R> {
    closed spec fn inv(&self) -> bool {
        &&& self.pos <= self.buf@.len()
        &&& self.buf@.len() <= self.cap
        &&& 1 <= self.cap
        &&& self.inner.inv()
    }

    fn read(&mut self, buf: &mut Vec<u8>) -> (r: Result<usize, ReadError>) {
        BufferedReader::read(self, buf)
    }
}

} // verus!
