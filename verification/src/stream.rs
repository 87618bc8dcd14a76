//! A forward-only, finite byte stream.
//!
//! The download path serves a file as a lazily consumed sequence of bytes.
//! [`ByteStream`] is the crate's model of that sequence: a buffer with a
//! cursor that only moves forward and is never restartable. Its contracts
//! pin streaming integrity down — every chunk handed out is exactly the next
//! run of the remaining bytes, so the concatenation of all chunks, in order,
//! is exactly the original contents, byte for byte.

use vstd::prelude::*;

verus! {

/// A finite byte stream consumed front to back, never restartable.
pub struct ByteStream {
    data: Vec<u8>,
    pos: usize,
}

impl ByteStream {
    /// The bytes not yet handed out.
    pub closed spec fn remaining(&self) -> Seq<u8> {
        self.data@.skip(self.pos as int)
    }

    pub closed spec fn wf(&self) -> bool {
        self.pos <= self.data@.len()
    }

    /// A stream over the whole of `data`.
    pub fn new(data: Vec<u8>) -> (r: ByteStream)
        ensures
            r.wf(),
            r.remaining() == data@,
    {
        proof {
            assert(data@.skip(0) =~= data@);
        }
        ByteStream { data, pos: 0 }
    }

    /// Whether the stream is exhausted.
    pub fn is_done(&self) -> (r: bool)
        requires
            self.wf(),
        ensures
            r == (self.remaining().len() == 0),
    {
        self.pos == self.data.len()
    }

    /// How many bytes are still to come.
    pub fn len_remaining(&self) -> (r: usize)
        requires
            self.wf(),
        ensures
            r == self.remaining().len(),
    {
        self.data.len() - self.pos
    }

    /// Hands out the next run of at most `max` bytes and advances past it.
    /// The chunk is exactly the front of what remained; nothing is skipped,
    /// reordered or repeated.
    pub fn next_chunk(&mut self, max: usize) -> (chunk: Vec<u8>)
        requires
            old(self).wf(),
        ensures
            final (self).wf(),
            chunk@ == old(self).remaining().take(
                vstd::math::min(max as int, old(self).remaining().len() as int),
            ),
            final (self).remaining() == old(self).remaining().skip(
                vstd::math::min(max as int, old(self).remaining().len() as int),
            ),
            chunk@ + final (self).remaining() == old(self).remaining(),
    {
        let rest = self.data.len() - self.pos;
        let n = if max < rest {
            max
        } else {
            rest
        };
        let mut chunk: Vec<u8> = Vec::new();
        let mut k: usize = 0;
        while k < n
            invariant
                k <= n,
                self.pos + n <= self.data@.len(),
                self.data.len() == self.data@.len(),
                chunk@ == self.data@.subrange(self.pos as int, self.pos + k),
            decreases n - k,
        {
            let b = self.data[self.pos + k];
            chunk.push(b);
            proof {
                assert(chunk@ =~= self.data@.subrange(self.pos as int, self.pos + k + 1));
            }
            k = k + 1;
        }
        proof {
            let m = vstd::math::min(max as int, old(self).remaining().len() as int);
            assert(chunk@ =~= old(self).remaining().take(m));
        }
        self.pos = self.pos + n;
        proof {
            let m = vstd::math::min(max as int, old(self).remaining().len() as int);
            assert(self.remaining() =~= old(self).remaining().skip(m));
            assert(chunk@ + self.remaining() =~= old(self).remaining());
        }
        chunk
    }

    /// Consumes the stream to its end: the result is exactly the remaining
    /// contents, in order, and nothing is left.
    pub fn read_all(&mut self) -> (r: Vec<u8>)
        requires
            old(self).wf(),
        ensures
            final (self).wf(),
            r@ == old(self).remaining(),
            final (self).remaining().len() == 0,
    {
        let mut out: Vec<u8> = Vec::new();
        proof {
            assert(out@ + old(self).remaining() =~= old(self).remaining());
        }
        while !self.is_done()
            invariant
                self.wf(),
                out@ + self.remaining() == old(self).remaining(),
            decreases self.remaining().len(),
    {
            let chunk = self.next_chunk(4096);
            let mut j: usize = 0;
            let ghost prev = out@;
            while j < chunk.len()
                invariant
                    j <= chunk@.len(),
                    out@ == prev + chunk@.take(j as int),
                decreases chunk@.len() - j,
            {
                let b = chunk[j];
                out.push(b);
                proof {
                    assert(out@ =~= prev + chunk@.take(j + 1));
                }
                j = j + 1;
            }
            proof {
                assert(chunk@.take(chunk@.len() as int) =~= chunk@);
                assert((prev + chunk@) + self.remaining() =~= prev + (chunk@
                    + self.remaining()));
            }
        }
        proof {
            assert(out@ + self.remaining() =~= out@);
        }
        out
    }
}

} // verus!
