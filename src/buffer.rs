//! Bounded FIFO byte queue used to stage writes and read-ahead data.

use crate::error::SMNtfsError;
use std::collections::VecDeque;
use vstd::prelude::*;

verus! {

/// Default buffer capacity (128 KiB).
pub const DEFAULT_BUFFER_SIZE: usize = 131072;

/// A fixed-capacity FIFO byte queue, tagged with the device offset that
/// its contents stand for.
pub struct IOBuffer {
    buffer: VecDeque<u8>,
    max_size: usize,
    offset: u64,
}

impl IOBuffer {
    /// The bytes held, oldest first.
    pub closed spec fn contents(&self) -> Seq<u8> {
        self.buffer@
    }

    /// The fixed capacity.
    pub closed spec fn capacity(&self) -> nat {
        self.max_size as nat
    }

    /// The device offset associated with the contents.
    pub closed spec fn spec_offset(&self) -> u64 {
        self.offset
    }

    /// The stored length never exceeds the capacity.
    pub open spec fn wf(&self) -> bool {
        self.contents().len() <= self.capacity()
    }

    /// Free room.
    pub open spec fn room(&self) -> int {
        self.capacity() - self.contents().len()
    }

    /// Whether a write of `n` bytes fits.
    pub open spec fn fits(&self, n: nat) -> bool {
        n <= self.room()
    }

    /// Create a buffer with the default capacity.
    pub fn new() -> (r: Self)
        ensures
            r.wf(),
            r.contents() == Seq::<u8>::empty(),
            r.capacity() == DEFAULT_BUFFER_SIZE as nat,
            r.spec_offset() == 0,
    {
        Self::with_capacity(DEFAULT_BUFFER_SIZE)
    }

    /// Create an empty buffer of the given capacity.
    pub fn with_capacity(capacity: usize) -> (r: Self)
        ensures
            r.wf(),
            r.contents() == Seq::<u8>::empty(),
            r.capacity() == capacity as nat,
            r.spec_offset() == 0,
    {
        IOBuffer { buffer: VecDeque::with_capacity(capacity), max_size: capacity, offset: 0 }
    }

    /// Append `data` if it fits in the free room; otherwise fail with
    /// `SystemError` and leave the buffer as it was.
    pub fn write(&mut self, data: &[u8]) -> (r: Result<usize, SMNtfsError>)
        requires
            old(self).wf(),
        ensures
            final(self).wf(),
            final(self).capacity() == old(self).capacity(),
            final(self).spec_offset() == old(self).spec_offset(),
            old(self).fits(data@.len()) ==> r == Ok::<usize, SMNtfsError>(data@.len() as usize)
                && final(self).contents() == old(self).contents() + data@,
            !old(self).fits(data@.len()) ==> (r matches Err(SMNtfsError::SystemError(_)))
                && final(self).contents() == old(self).contents(),
    {
        let available = self.max_size - self.buffer.len();
        if data.len() > available {
            return Err(SMNtfsError::SystemError(String::from_str("Buffer overflow")));
        }
        let ghost start = self.buffer@;
        let mut i: usize = 0;
        while i < data.len()
            invariant
                i <= data@.len(),
                start.len() + data@.len() <= self.max_size,
                self.max_size == old(self).max_size,
                self.offset == old(self).offset,
                self.buffer@ == start + data@.subrange(0, i as int),
            decreases data@.len() - i,
        {
            self.buffer.push_back(data[i]);
            i = i + 1;
            proof {
                assert(data@.subrange(0, i as int) == data@.subrange(0, i - 1).push(data@[i - 1]));
            }
        }
        proof {
            assert(data@.subrange(0, data@.len() as int) == data@);
        }
        Ok(data.len())
    }

    /// Remove and return the first `min(size, len)` bytes.
    pub fn read(&mut self, size: usize) -> (r: Vec<u8>)
        requires
            old(self).wf(),
        ensures
            final(self).wf(),
            final(self).capacity() == old(self).capacity(),
            final(self).spec_offset() == old(self).spec_offset(),
            r@.len() == vstd::math::min(size as int, old(self).contents().len() as int),
            r@ == old(self).contents().take(r@.len() as int),
            final(self).contents() == old(self).contents().skip(r@.len() as int),
    {
        let actual_size = if size < self.buffer.len() { size } else { self.buffer.len() };
        let ghost start = self.buffer@;
        let mut out: Vec<u8> = Vec::with_capacity(actual_size);
        let mut i: usize = 0;
        while i < actual_size
            invariant
                actual_size <= start.len(),
                i <= actual_size,
                self.max_size == old(self).max_size,
                self.offset == old(self).offset,
                start.len() <= self.max_size,
                out@ == start.take(i as int),
                self.buffer@ == start.skip(i as int),
            decreases actual_size - i,
        {
            let b = self.buffer.pop_front();
            match b {
                Some(x) => {
                    out.push(x);
                },
                None => {},
            }
            i = i + 1;
            proof {
                assert(out@ == start.take(i as int));
                assert(self.buffer@ == start.skip(i as int));
            }
        }
        out
    }

    /// Whether no byte is held.
    pub fn is_empty(&self) -> (r: bool)
        ensures
            r == (self.contents().len() == 0),
    {
        self.buffer.len() == 0
    }

    /// Whether the stored length has reached the capacity.
    pub fn is_full(&self) -> (r: bool)
        ensures
            r == (self.contents().len() >= self.capacity()),
    {
        self.buffer.len() >= self.max_size
    }

    /// The number of bytes held.
    pub fn len(&self) -> (r: usize)
        ensures
            r == self.contents().len(),
    {
        self.buffer.len()
    }

    /// The free room: capacity minus length.
    pub fn available(&self) -> (r: usize)
        requires
            self.wf(),
        ensures
            r == self.room(),
    {
        self.max_size - self.buffer.len()
    }

    /// Discard every byte held.
    pub fn clear(&mut self)
        ensures
            final(self).wf(),
            final(self).contents() == Seq::<u8>::empty(),
            final(self).capacity() == old(self).capacity(),
            final(self).spec_offset() == old(self).spec_offset(),
    {
        self.buffer.clear();
    }

    /// The device offset associated with the contents.
    pub fn offset(&self) -> (r: u64)
        ensures
            r == self.spec_offset(),
    {
        self.offset
    }

    /// Associate the contents with another device offset.
    pub fn set_offset(&mut self, offset: u64)
        requires
            old(self).wf(),
        ensures
            final(self).wf(),
            final(self).spec_offset() == offset,
            final(self).contents() == old(self).contents(),
            final(self).capacity() == old(self).capacity(),
    {
        self.offset = offset;
    }
}

/// A write of at most the capacity into an empty buffer fits, and the
/// buffer then holds exactly its bytes; a write one byte longer than the
/// capacity does not fit, and a write that does not fit changes nothing.
pub proof fn lemma_write_into_empty(b: IOBuffer, data: Seq<u8>)
    requires
        b.contents().len() == 0,
    ensures
        data.len() <= b.capacity() ==> b.fits(data.len()) && b.contents() + data == data
            && (b.contents() + data).len() == data.len(),
        data.len() == b.capacity() + 1 ==> !b.fits(data.len()),
{
    assert(b.contents() + data =~= data);
}

/// A read of `size` bytes from a buffer holding `contents` returns
/// `min(size, len)` bytes and leaves `len - min(size, len)`.
pub proof fn lemma_read_lengths(contents: Seq<u8>, size: nat)
    ensures
        ({
            let n = vstd::math::min(size as int, contents.len() as int);
            &&& contents.take(n).len() == n
            &&& contents.skip(n).len() == contents.len() - n
        }),
{
}

impl Default for IOBuffer {
    fn default() -> (r: Self)
        ensures
            r.wf(),
            r.contents() == Seq::<u8>::empty(),
            r.capacity() == DEFAULT_BUFFER_SIZE as nat,
            r.spec_offset() == 0,
    {
        Self::new()
    }
}

} // verus!
