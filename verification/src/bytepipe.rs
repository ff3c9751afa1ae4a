//! An explicit in-memory bounded byte pipe: the primitive behind a
//! synthetic process's paired streams, independent of any OS primitive.
//!
//! The pipe is a bounded first-in-first-out byte buffer with a closed
//! flag. Writes accept at most the free space and never reorder bytes;
//! reads hand out a prefix of the buffered bytes in write order. The
//! surrounding binary adds the waiting: a task that finds the pipe full
//! or empty parks until the other side moves.

use vstd::prelude::*;

verus! {

/// A bounded first-in-first-out byte buffer with a closed flag.
#[derive(Debug)]
pub struct BytePipe {
    buf: Vec<u8>,
    cap: usize,
    closed: bool,
}

impl BytePipe {
    /// The buffered bytes, oldest first.
    pub closed spec fn spec_buf(&self) -> Seq<u8> {
        self.buf@
    }

    /// The bound the pipe was made with.
    pub closed spec fn spec_cap(&self) -> usize {
        self.cap
    }

    /// Whether the writing side has closed the pipe.
    pub closed spec fn spec_closed(&self) -> bool {
        self.closed
    }

    /// The buffer never holds more than the bound.
    pub open spec fn wf(&self) -> bool {
        self.spec_buf().len() <= self.spec_cap()
    }

    /// An empty, open pipe with the given bound.
    pub fn new(cap: usize) -> (p: BytePipe)
        ensures
            p.wf(),
            p.spec_buf() == Seq::<u8>::empty(),
            p.spec_cap() == cap,
            !p.spec_closed(),
    {
        BytePipe { buf: Vec::new(), cap, closed: false }
    }

    /// Queues as much of `data` as fits: nothing once the pipe is
    /// closed, else exactly the free space or the whole chunk, whichever
    /// is smaller, appended in order. Returns how many bytes were taken.
    pub fn write(&mut self, data: &Vec<u8>) -> (n: usize)
        requires
            old(self).wf(),
        ensures
            final(self).wf(),
            final(self).spec_cap() == old(self).spec_cap(),
            final(self).spec_closed() == old(self).spec_closed(),
            old(self).spec_closed() ==> n == 0,
            !old(self).spec_closed() ==> n == if data@.len()
                <= old(self).spec_cap() - old(self).spec_buf().len() {
                data@.len() as int
            } else {
                old(self).spec_cap() - old(self).spec_buf().len()
            },
            final(self).spec_buf() == old(self).spec_buf() + data@.subrange(0, n as int),
    {
        if self.closed {
            proof {
                assert(self.spec_buf() + data@.subrange(0, 0) =~= self.spec_buf());
            }
            return 0;
        }
        let avail = self.cap - self.buf.len();
        let n = if data.len() <= avail {
            data.len()
        } else {
            avail
        };
        let mut i: usize = 0;
        while i < n
            invariant
                i <= n <= data@.len(),
                old(self).buf@.len() + n <= self.cap,
                self.cap == old(self).cap,
                self.closed == old(self).closed,
                self.buf@.len() == old(self).buf@.len() + i,
                self.buf@.len() <= self.cap,
                self.buf@ == old(self).buf@ + data@.subrange(0, i as int),
            decreases n - i,
        {
            self.buf.push(data[i]);
            i = i + 1;
            proof {
                assert(self.buf@ =~= old(self).buf@ + data@.subrange(0, i as int));
            }
        }
        n
    }

    /// Hands out the oldest `max` buffered bytes, or all of them if
    /// fewer, removing them from the pipe. An empty result on a closed
    /// pipe is end of stream.
    pub fn read(&mut self, max: usize) -> (out: Vec<u8>)
        requires
            old(self).wf(),
        ensures
            final(self).wf(),
            final(self).spec_cap() == old(self).spec_cap(),
            final(self).spec_closed() == old(self).spec_closed(),
            ({
                let k = if max <= old(self).spec_buf().len() {
                    max as int
                } else {
                    old(self).spec_buf().len() as int
                };
                out@ == old(self).spec_buf().subrange(0, k) && final(self).spec_buf() == old(
                    self,
                ).spec_buf().subrange(k, old(self).spec_buf().len() as int)
            }),
    {
        let k = if max <= self.buf.len() {
            max
        } else {
            self.buf.len()
        };
        let mut out: Vec<u8> = Vec::new();
        let mut i: usize = 0;
        while i < k
            invariant
                i <= k <= self.buf@.len(),
                self.buf@ == old(self).buf@,
                self.cap == old(self).cap,
                self.closed == old(self).closed,
                out@ == self.buf@.subrange(0, i as int),
            decreases k - i,
        {
            out.push(self.buf[i]);
            i = i + 1;
            proof {
                assert(out@ =~= self.buf@.subrange(0, i as int));
            }
        }
        let mut rest: Vec<u8> = Vec::new();
        let mut j: usize = k;
        while j < self.buf.len()
            invariant
                k <= j <= self.buf@.len(),
                self.buf@ == old(self).buf@,
                self.cap == old(self).cap,
                self.closed == old(self).closed,
                rest@ == self.buf@.subrange(k as int, j as int),
            decreases self.buf@.len() - j,
        {
            rest.push(self.buf[j]);
            j = j + 1;
            proof {
                assert(rest@ =~= self.buf@.subrange(k as int, j as int));
            }
        }
        self.buf = rest;
        out
    }

    /// Closes the writing side: nothing more will be queued; what is
    /// buffered can still be read.
    pub fn close(&mut self)
        requires
            old(self).wf(),
        ensures
            final(self).wf(),
            final(self).spec_buf() == old(self).spec_buf(),
            final(self).spec_cap() == old(self).spec_cap(),
            final(self).spec_closed(),
    {
        self.closed = true;
    }

    /// How many bytes a write could take right now.
    pub fn free_space(&self) -> (n: usize)
        requires
            self.wf(),
        ensures
            n == self.spec_cap() - self.spec_buf().len(),
    {
        self.cap - self.buf.len()
    }

    /// How many bytes are buffered.
    pub fn buffered(&self) -> (n: usize)
        ensures
            n == self.spec_buf().len(),
    {
        self.buf.len()
    }

    /// End of stream: closed and drained.
    pub fn is_exhausted(&self) -> (b: bool)
        ensures
            b == (self.spec_closed() && self.spec_buf().len() == 0),
    {
        self.closed && self.buf.len() == 0
    }
}

} // verus!
