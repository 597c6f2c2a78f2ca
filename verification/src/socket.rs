//! Reading and writing whole buffers on a stream that hands over its bytes
//! piece by piece. The task asks for a buffer to be filled or flushed; each
//! time the stream has something for it, the progress is recorded here, and
//! the answer says whether the task is done, must wait, or has lost its peer.

use vstd::prelude::*;

verus! {

/// Where a transfer stands after a step.
#[derive(Clone, Copy, Debug, PartialEq, Eq, Structural)]
pub enum Transfer {
    /// Every byte is through.
    Complete,
    /// Bytes are missing: the task waits for the stream.
    Suspend,
    /// Bytes are missing and the peer has closed the connection.
    UnexpectedEof,
}

/// A read of exactly `wanted` bytes.
pub struct ReadExact {
    buffer: Vec<u8>,
    wanted: usize,
}

/// The lesser of two lengths.
pub open spec fn lesser(a: int, b: int) -> int {
    if a <= b {
        a
    } else {
        b
    }
}

/// Where a read stands with `missing` bytes to go on a stream that is open or not.
pub open spec fn read_status(missing: int, open: bool) -> Transfer {
    if missing == 0 {
        Transfer::Complete
    } else if open {
        Transfer::Suspend
    } else {
        Transfer::UnexpectedEof
    }
}

impl View for ReadExact {
    type V = Seq<u8>;

    /// The bytes read so far.
    closed spec fn view(&self) -> Seq<u8> {
        self.buffer@
    }
}

impl ReadExact {
    /// How many bytes the read is for.
    pub closed spec fn wanted(&self) -> usize {
        self.wanted
    }

    /// No more bytes were read than wanted.
    pub open spec fn wf(&self) -> bool {
        self@.len() <= self.wanted()
    }

    /// How many bytes are missing.
    pub open spec fn missing(&self) -> int {
        self.wanted() - self@.len()
    }

    /// A read of `wanted` bytes of which none has arrived.
    pub fn new(wanted: usize) -> (read: ReadExact)
        ensures
            read.wf(),
            read.wanted() == wanted,
            read@ == Seq::<u8>::empty(),
    {
        ReadExact { buffer: Vec::new(), wanted }
    }

    /// Takes from `arrived`, the bytes that the stream holds, as many as are
    /// still missing, first byte first, and returns how many it took and
    /// where the read stands. A read that is not complete waits while the
    /// stream is open and fails once the peer has closed.
    pub fn feed(&mut self, arrived: &[u8], open: bool) -> (step: (usize, Transfer))
        requires
            old(self).wf(),
        ensures
            final(self).wf(),
            final(self).wanted() == old(self).wanted(),
            step.0 == lesser(arrived@.len() as int, old(self).missing()),
            final(self)@ == old(self)@ + arrived@.subrange(0, step.0 as int),
            step.1 == read_status(final(self).missing(), open),
    {
        let missing = self.wanted - self.buffer.len();
        let take = if arrived.len() <= missing {
            arrived.len()
        } else {
            missing
        };
        let mut i: usize = 0;
        while i < take
            invariant
                i <= take,
                take <= arrived@.len(),
                self.wanted == old(self).wanted,
                self.buffer@.len() == old(self).buffer@.len() + i,
                old(self).buffer@.len() + take <= self.wanted,
                self.buffer@ == old(self).buffer@ + arrived@.subrange(0, i as int),
            decreases take - i,
        {
            self.buffer.push(arrived[i]);
            assert(self.buffer@ =~= old(self).buffer@ + arrived@.subrange(0, i + 1));
            i += 1;
        }
        let status = if self.buffer.len() == self.wanted {
            Transfer::Complete
        } else if open {
            Transfer::Suspend
        } else {
            Transfer::UnexpectedEof
        };
        (take, status)
    }

    /// The bytes of the read, once it is complete; `None` before.
    pub fn finish(self) -> (bytes: Option<Vec<u8>>)
        requires
            self.wf(),
        ensures
            bytes is Some <==> self.missing() == 0,
            bytes is Some ==> bytes->0@ == self@,
    {
        if self.buffer.len() == self.wanted {
            Some(self.buffer)
        } else {
            None
        }
    }
}

/// A write of a whole buffer.
pub struct WriteAll {
    data: Vec<u8>,
    flushed: usize,
}

impl WriteAll {
    /// The bytes to write.
    pub closed spec fn data(&self) -> Seq<u8> {
        self.data@
    }

    /// How many of them the stream has taken.
    pub closed spec fn flushed(&self) -> usize {
        self.flushed
    }

    /// No more bytes were taken than there are.
    pub open spec fn wf(&self) -> bool {
        self.flushed() <= self.data().len()
    }

    /// A write of `data` of which nothing has been taken.
    pub fn new(data: Vec<u8>) -> (write: WriteAll)
        ensures
            write.wf(),
            write.data() == data@,
            write.flushed() == 0,
    {
        WriteAll { data, flushed: 0 }
    }

    /// Hands the stream, which has room for `room` bytes, the bytes that
    /// follow those it has taken, as many as fit, and says where the write
    /// stands: complete once the stream has taken every byte, waiting otherwise.
    pub fn offer(&mut self, room: usize) -> (step: (Vec<u8>, Transfer))
        requires
            old(self).wf(),
        ensures
            final(self).wf(),
            final(self).data() == old(self).data(),
            step.0@.len() == lesser(room as int, old(self).data().len() - old(self).flushed()),
            step.0@ == old(self).data().subrange(
                old(self).flushed() as int,
                old(self).flushed() + step.0@.len(),
            ),
            final(self).flushed() == old(self).flushed() + step.0@.len(),
            step.1 == if final(self).flushed() == final(self).data().len() {
                Transfer::Complete
            } else {
                Transfer::Suspend
            },
    {
        let left = self.data.len() - self.flushed;
        let take = if room <= left {
            room
        } else {
            left
        };
        let mut chunk: Vec<u8> = Vec::new();
        let mut i: usize = 0;
        while i < take
            invariant
                i <= take,
                self.flushed + take <= self.data@.len() <= usize::MAX,
                self.flushed == old(self).flushed,
                self.data@ == old(self).data@,
                chunk@ == self.data@.subrange(self.flushed as int, self.flushed + i),
            decreases take - i,
        {
            chunk.push(self.data[self.flushed + i]);
            assert(chunk@ =~= self.data@.subrange(self.flushed as int, self.flushed + i + 1));
            i += 1;
        }
        self.flushed = self.flushed + take;
        let status = if self.flushed == self.data.len() {
            Transfer::Complete
        } else {
            Transfer::Suspend
        };
        (chunk, status)
    }
}

/// Whether a read of one byte would return at once: it would when the stream
/// holds a byte.
pub fn readable(buffered: usize) -> (readable: bool)
    ensures
        readable == (buffered >= 1),
{
    buffered > 0
}

/// A read that is fed everything it is missing is complete, and holds what it
/// held before followed by the bytes it was missing, whether or not the peer
/// has closed since.
pub proof fn lemma_read_completes(before: Seq<u8>, wanted: int, arrived: Seq<u8>, open: bool)
    requires
        before.len() <= wanted,
        arrived.len() >= wanted - before.len(),
    ensures
        lesser(arrived.len() as int, wanted - before.len()) == wanted - before.len(),
        read_status(
            wanted - (before + arrived.subrange(0, wanted - before.len())).len(),
            open,
        ) == Transfer::Complete,
{
}

} // verus!
