//! Streams held in memory: a source that hands out a byte vector in chunks of
//! a chosen size, and a sink that collects bytes, a few per write.

use vstd::prelude::*;
use crate::relay::{ByteSink, ByteSource, StreamFault};

verus! {

/// A byte vector read front to back, at most `chunk` bytes at a time (one at
/// a time where `chunk` is 0). With `fail_at` set, every read fails once that
/// many bytes have been handed out.
#[derive(Clone, Debug, PartialEq, Eq)]
pub struct MemorySource {
    pub data: Vec<u8>,
    pub pos: usize,
    pub chunk: usize,
    pub fail_at: Option<usize>,
}

/// The smaller of two counts.
pub open spec fn least(a: int, b: int) -> int {
    if a <= b {
        a
    } else {
        b
    }
}

/// How many bytes go at once where `unit` is asked for: `unit`, or one where
/// it is 0.
pub open spec fn stride(unit: usize) -> int {
    if unit == 0 {
        1
    } else {
        unit as int
    }
}

impl MemorySource {
    /// Whether the next read fails.
    pub open spec fn fails_next(&self) -> bool {
        self.fail_at matches Some(limit) && self.pos >= limit
    }

    /// A source that gives all of `data` and never fails.
    pub fn new(data: Vec<u8>, chunk: usize) -> (s: MemorySource)
        ensures
            s.pending() == data@,
            s.reliable(),
            s == (MemorySource { data, pos: 0, chunk, fail_at: None }),
    {
        MemorySource { data, pos: 0, chunk, fail_at: None }
    }

    /// A source whose reads fail once `limit` bytes have been handed out.
    pub fn failing_at(data: Vec<u8>, chunk: usize, limit: usize) -> (s: MemorySource)
        ensures
            s.pending() == data@,
            !s.reliable(),
            s == (MemorySource { data, pos: 0, chunk, fail_at: Some(limit) }),
    {
        MemorySource { data, pos: 0, chunk, fail_at: Some(limit) }
    }
}

impl ByteSource for MemorySource {
    open spec fn modelled(&self) -> bool {
        true
    }

    open spec fn pending(&self) -> Seq<u8> {
        if self.pos <= self.data@.len() {
            self.data@.skip(self.pos as int)
        } else {
            Seq::empty()
        }
    }

    open spec fn reliable(&self) -> bool {
        self.fail_at is None
    }

    fn next_chunk(&mut self) -> (r: Result<Vec<u8>, StreamFault>)
        ensures
            r is Err <==> old(self).fails_next(),
            r matches Ok(chunk) ==> chunk@.len() == least(
                stride(old(self).chunk),
                old(self).pending().len() as int,
            ),
            final(self).pos == old(self).pos + (match r {
                Ok(chunk) => chunk@.len(),
                Err(_) => 0,
            }),
            final(self).data == old(self).data,
            final(self).chunk == old(self).chunk,
            final(self).fail_at == old(self).fail_at,
    {
        if let Some(limit) = self.fail_at {
            if self.pos >= limit {
                return Err(StreamFault {  });
            }
        }
        let len: usize = self.data.len();
        let mut out: Vec<u8> = Vec::new();
        if self.pos >= len {
            return Ok(out);
        }
        let room: usize = len - self.pos;
        let want: usize = if self.chunk == 0 {
            1
        } else {
            self.chunk
        };
        let n: usize = if want < room {
            want
        } else {
            room
        };
        let start: usize = self.pos;
        let mut i: usize = 0;
        while i < n
            invariant
                i <= n,
                start + n <= self.data@.len() <= usize::MAX,
                out@ == self.data@.subrange(start as int, start + i),
            decreases n - i,
        {
            out.push(self.data[start + i]);
            i = i + 1;
            proof {
                assert(out@ =~= self.data@.subrange(start as int, start + i));
            }
        }
        self.pos = start + n;
        proof {
            assert(self.data@.skip(start as int) =~= out@ + self.data@.skip(start + n));
        }
        Ok(out)
    }
}

/// A byte vector that grows by at most `per_write` bytes each write (one
/// where `per_write` is 0). With `capacity` set, it never holds more than
/// that many bytes, and a write to a full sink fails.
#[derive(Clone, Debug, PartialEq, Eq)]
pub struct MemorySink {
    pub data: Vec<u8>,
    pub per_write: usize,
    pub capacity: Option<usize>,
}

impl MemorySink {
    /// Whether the sink holds as much as it may.
    pub open spec fn full(&self) -> bool {
        self.capacity matches Some(most) && self.data@.len() >= most
    }

    /// How many bytes the sink can still take; `bound` where it has no limit.
    pub open spec fn room(&self, bound: int) -> int {
        match self.capacity {
            Some(most) => least(most - self.data@.len(), bound),
            None => bound,
        }
    }

    /// An empty sink without a limit on what it holds.
    pub fn new(per_write: usize) -> (s: MemorySink)
        ensures
            s.received() == Seq::<u8>::empty(),
            s.reliable(),
            s.per_write == per_write,
    {
        MemorySink { data: Vec::new(), per_write, capacity: None }
    }

    /// An empty sink that holds at most `capacity` bytes.
    pub fn bounded(per_write: usize, capacity: usize) -> (s: MemorySink)
        ensures
            s.received() == Seq::<u8>::empty(),
            !s.reliable(),
            s.per_write == per_write,
            s.capacity == Some(capacity),
    {
        MemorySink { data: Vec::new(), per_write, capacity: Some(capacity) }
    }
}

impl ByteSink for MemorySink {
    open spec fn modelled(&self) -> bool {
        true
    }

    open spec fn received(&self) -> Seq<u8> {
        self.data@
    }

    open spec fn reliable(&self) -> bool {
        self.capacity is None
    }

    fn write(&mut self, data: &Vec<u8>, from: usize) -> (r: Result<usize, StreamFault>)
        ensures
            r is Err <==> old(self).full(),
            r matches Ok(n) ==> n == old(self).room(
                least(stride(old(self).per_write), data@.len() - from),
            ),
            final(self).per_write == old(self).per_write,
            final(self).capacity == old(self).capacity,
    {
        let avail: usize = data.len() - from;
        let want: usize = if self.per_write == 0 {
            1
        } else {
            self.per_write
        };
        let mut n: usize = if want < avail {
            want
        } else {
            avail
        };
        if let Some(cap) = self.capacity {
            let held: usize = self.data.len();
            if held >= cap {
                return Err(StreamFault {  });
            }
            if n > cap - held {
                n = cap - held;
            }
        }
        let ghost before = self.data@;
        let mut i: usize = 0;
        while i < n
            invariant
                i <= n,
                from + n <= data@.len() <= usize::MAX,
                self.data@ == before + data@.subrange(from as int, from + i),
                self.per_write == old(self).per_write,
                self.capacity == old(self).capacity,
            decreases n - i,
        {
            self.data.push(data[from + i]);
            i = i + 1;
            proof {
                assert(self.data@ =~= before + data@.subrange(from as int, from + i));
            }
        }
        Ok(n)
    }
}

} // verus!
