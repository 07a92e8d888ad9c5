//! A staging buffer with a soft capacity and in-place compaction.

use vstd::prelude::*;
use vstd::slice::slice_subrange;
use super::model::{grown_len, BufferState};

verus! {

/// Writer that can be used for buffering data.
///
/// The valid bytes occupy `buffer[offset .. offset + used]`; everything else
/// in `buffer` is scratch space.
pub struct WriteBuffer {
    buffer: Vec<u8>,
    capacity: usize,
    offset: usize,
    used: usize,
}

impl View for WriteBuffer {
    type V = BufferState;

    closed spec fn view(&self) -> BufferState {
        BufferState {
            target_capacity: self.capacity as nat,
            storage_len: self.buffer@.len(),
            offset: self.offset as nat,
            data: self.buffer@.subrange(self.offset as int, self.offset + self.used),
        }
    }
}

impl WriteBuffer {
    #[verifier::type_invariant]
    spec fn inv(self) -> bool {
        &&& self.capacity <= self.buffer.len()
        &&& self.offset + self.used <= self.buffer.len()
    }

    /// Create a new buffer with a given capacity. Note that the capacity is
    /// only a soft limit. The buffer will always allow you to write more than
    /// its capacity.
    pub fn new(capacity: usize) -> (res: WriteBuffer)
        ensures
            res@ == BufferState::fresh(capacity as nat),
            res@.wf(),
    {
        let res = WriteBuffer { buffer: vec![0u8; capacity], capacity, offset: 0, used: 0 };
        assert(res@.data =~= Seq::<u8>::empty());
        res
    }

    /// Check if the buffer is full.
    pub fn is_full(&self) -> (full: bool)
        ensures
            full == self@.is_full(),
            self@.wf(),
    {
        proof {
            use_type_invariant(self);
        }
        self.used >= self.capacity
    }

    /// Check if the buffer is empty.
    pub fn is_empty(&self) -> (empty: bool)
        ensures
            empty == self@.is_empty(),
            self@.wf(),
    {
        proof {
            use_type_invariant(self);
        }
        self.used == 0
    }

    /// Get number of bytes available until the soft limit is reached.
    pub fn available(&self) -> (room: usize)
        ensures
            room == self@.available(),
            self@.wf(),
    {
        proof {
            use_type_invariant(self);
        }
        if self.is_full() {
            0
        } else {
            self.capacity - self.used
        }
    }

    /// Get number of buffered bytes.
    pub fn buffered(&self) -> (count: usize)
        ensures
            count == self@.buffered(),
            self@.wf(),
    {
        proof {
            use_type_invariant(self);
        }
        self.used
    }

    /// Get slice of bytes of the currently buffered data.
    pub fn as_bytes(&self) -> (bytes: &[u8])
        ensures
            bytes@ == self@.data,
            self@.wf(),
    {
        proof {
            use_type_invariant(self);
        }
        let start = self.offset;
        let end = start + self.used;
        slice_subrange(self.buffer.as_slice(), start, end)
    }

    /// Drop a given number of bytes from the buffer. Asking for more than is
    /// buffered drops everything.
    pub fn drop(&mut self, count: usize)
        ensures
            final(self)@ == old(self)@.discard(count as nat),
            final(self)@.wf(),
    {
        proof {
            use_type_invariant(&*self);
        }
        let n = if count > self.used {
            self.used
        } else {
            count
        };
        self.used -= n;
        self.offset += n;
        assert(self@.data =~= old(self)@.data.skip(n as int));
    }

    /// Drop all buffered data.
    pub fn clear(&mut self)
        ensures
            final(self)@ == old(self)@.clear(),
            final(self)@.wf(),
    {
        proof {
            use_type_invariant(&*self);
        }
        let n = self.used;
        self.used = 0;
        self.offset += n;
        assert(self@.data =~= old(self)@.data.skip(n as int));
    }

    /// Replace the storage by a larger one that holds the same valid bytes
    /// at the same place.
    fn grow(&mut self, needed: usize)
        requires
            old(self)@.storage_len < needed,
        ensures
            final(self)@ == (BufferState {
                storage_len: grown_len(old(self)@.storage_len, needed as nat),
                ..old(self)@
            }),
    {
        proof {
            use_type_invariant(&*self);
        }
        let len = self.buffer.len();
        let new_len = if len <= usize::MAX / 2 && 2 * len >= needed {
            2 * len
        } else {
            needed
        };
        let mut grown = vec![0u8; new_len];
        let start = self.offset;
        let end = start + self.used;
        let mut i = start;
        while i < end
            invariant
                start <= i <= end <= self.buffer.len() <= grown.len() == new_len,
                forall|j: int| start <= j < i ==> grown@[j] == self.buffer@[j],
            decreases end - i,
        {
            grown[i] = self.buffer[i];
            i += 1;
        }
        self.buffer = grown;
        assert(self@.data =~= old(self)@.data);
    }

    /// Move the valid bytes to the start of the storage.
    fn compact(&mut self)
        ensures
            final(self)@ == (BufferState { offset: 0, ..old(self)@ }),
    {
        proof {
            use_type_invariant(&*self);
        }
        let offset = self.offset;
        let used = self.used;
        let mut i: usize = 0;
        while i < used
            invariant
                i <= used,
                self.offset == offset,
                self.used == used,
                self.capacity == old(self).capacity,
                offset + used <= self.buffer.len() == old(self).buffer.len(),
                forall|j: int| 0 <= j < i ==> self.buffer@[j] == old(self).buffer@[offset + j],
                forall|k: int|
                    offset + i <= k < offset + used ==> self.buffer@[k] == old(self).buffer@[k],
            decreases used - i,
        {
            proof {
                use_type_invariant(&*self);
            }
            let byte = self.buffer[offset + i];
            self.buffer[i] = byte;
            i += 1;
        }
        self.offset = 0;
        assert(self@.data =~= old(self)@.data);
    }

    /// Copy `data` behind the valid bytes and make it part of them.
    fn fill(&mut self, data: &[u8])
        requires
            old(self)@.offset + old(self)@.buffered() + data@.len() <= old(self)@.storage_len,
        ensures
            final(self)@ == (BufferState { data: old(self)@.data + data@, ..old(self)@ }),
    {
        proof {
            use_type_invariant(&*self);
        }
        let len = data.len();
        let start = self.offset + self.used;
        let mut i: usize = 0;
        while i < len
            invariant
                i <= len == data@.len(),
                self.offset == old(self).offset,
                self.used == old(self).used,
                self.capacity == old(self).capacity,
                start == self.offset + self.used,
                start + len <= self.buffer.len() == old(self).buffer.len(),
                forall|j: int| 0 <= j < start ==> self.buffer@[j] == old(self).buffer@[j],
                forall|k: int| start <= k < start + i ==> self.buffer@[k] == data@[k - start],
            decreases len - i,
        {
            proof {
                use_type_invariant(&*self);
            }
            let byte = data[i];
            self.buffer[start + i] = byte;
            i += 1;
        }
        self.used += len;
        assert(self@.data =~= old(self)@.data + data@);
    }

    /// Write given data into the buffer and return the number of bytes
    /// written, which is always all of them. The storage grows as needed, and
    /// the valid bytes are shifted to its start when `data` would otherwise
    /// run past its end.
    pub fn write(&mut self, data: &[u8]) -> (written: usize)
        requires
            old(self)@.buffered() + data@.len() <= usize::MAX,
        ensures
            final(self)@ == old(self)@.append(data@),
            final(self)@.wf(),
            written == data@.len(),
    {
        proof {
            use_type_invariant(&*self);
        }
        let len = data.len();
        let needed = self.used + len;
        if needed > self.buffer.len() {
            self.grow(needed);
        }
        proof {
            use_type_invariant(&*self);
        }
        if len > self.buffer.len() - self.offset - self.used {
            self.compact();
        }
        self.fill(data);
        proof {
            use_type_invariant(&*self);
        }
        len
    }

    /// Do nothing: the buffer has no sink of its own.
    pub fn flush(&mut self)
        ensures
            *final(self) == *old(self),
    {
    }
}

} // verus!
