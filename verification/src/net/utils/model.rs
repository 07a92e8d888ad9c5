//! Mathematical model of the staging buffer and the laws that hold of it.

use vstd::prelude::*;

verus! {

/// Abstract state of a staging buffer: a soft capacity target, the length of
/// the backing storage, and the window of valid bytes inside that storage.
pub struct BufferState {
    /// Soft capacity chosen at construction; a hint for flushing, never a limit.
    pub target_capacity: nat,
    /// Length of the backing storage.
    pub storage_len: nat,
    /// Index in the storage at which the valid bytes start.
    pub offset: nat,
    /// The valid bytes, oldest first.
    pub data: Seq<u8>,
}

/// One mutation of a staging buffer.
pub enum BufferOp {
    /// Append the given bytes.
    Append(Seq<u8>),
    /// Discard up to the given number of bytes from the front.
    Discard(nat),
    /// Discard everything.
    Clear,
}

/// Storage length chosen when `needed` bytes no longer fit into a storage of
/// `storage_len` bytes: twice the current length where that is enough and
/// still addressable, otherwise exactly `needed`.
pub open spec fn grown_len(storage_len: nat, needed: nat) -> nat {
    if needed <= 2 * storage_len <= usize::MAX {
        2 * storage_len
    } else {
        needed
    }
}

/// Number of buffered bytes after `op`, given that `count` were buffered
/// before it: appends add, discards subtract and stop at zero, a clear
/// subtracts everything.
pub open spec fn count_after(count: nat, op: BufferOp) -> nat {
    match op {
        BufferOp::Append(bytes) => count + bytes.len(),
        BufferOp::Discard(n) => if n >= count {
            0
        } else {
            (count - n) as nat
        },
        BufferOp::Clear => 0,
    }
}

/// Number of buffered bytes after all of `ops`, computed from counts alone.
pub open spec fn count_after_all(count: nat, ops: Seq<BufferOp>) -> nat
    decreases ops.len(),
{
    if ops.len() == 0 {
        count
    } else {
        count_after_all(count_after(count, ops.first()), ops.drop_first())
    }
}

impl BufferState {
    /// The window of valid bytes lies inside the storage, and the storage is
    /// at least as large as the soft capacity.
    pub open spec fn wf(self) -> bool {
        &&& self.target_capacity <= self.storage_len
        &&& self.offset + self.data.len() <= self.storage_len
    }

    /// State of a newly created buffer.
    pub open spec fn fresh(target_capacity: nat) -> BufferState {
        BufferState { target_capacity, storage_len: target_capacity, offset: 0, data: Seq::empty() }
    }

    /// Number of valid bytes.
    pub open spec fn buffered(self) -> nat {
        self.data.len()
    }

    /// The soft capacity has been reached.
    pub open spec fn is_full(self) -> bool {
        self.buffered() >= self.target_capacity
    }

    /// No valid bytes are held.
    pub open spec fn is_empty(self) -> bool {
        self.buffered() == 0
    }

    /// Room left under the soft capacity.
    pub open spec fn available(self) -> nat {
        if self.is_full() {
            0
        } else {
            (self.target_capacity - self.buffered()) as nat
        }
    }

    /// Number of bytes that a discard of `count` actually removes.
    pub open spec fn discarded(self, count: nat) -> nat {
        if count > self.buffered() {
            self.buffered()
        } else {
            count
        }
    }

    /// The window advances past the discarded bytes; the storage stays as it is.
    pub open spec fn discard(self, count: nat) -> BufferState {
        let n = self.discarded(count);
        BufferState {
            target_capacity: self.target_capacity,
            storage_len: self.storage_len,
            offset: self.offset + n,
            data: self.data.skip(n as int),
        }
    }

    /// A discard of everything that is buffered.
    pub open spec fn clear(self) -> BufferState {
        self.discard(self.buffered())
    }

    /// Storage length after making room for `needed` valid bytes.
    pub open spec fn storage_len_for(self, needed: nat) -> nat {
        if needed > self.storage_len {
            grown_len(self.storage_len, needed)
        } else {
            self.storage_len
        }
    }

    /// The storage grows if the valid bytes and `bytes` together exceed it,
    /// the window moves to the start of the storage if `bytes` would
    /// otherwise run past its end, and `bytes` follow the valid bytes.
    pub open spec fn append(self, bytes: Seq<u8>) -> BufferState {
        let needed = self.buffered() + bytes.len();
        let storage_len = self.storage_len_for(needed);
        BufferState {
            target_capacity: self.target_capacity,
            storage_len,
            offset: if self.offset + needed > storage_len {
                0
            } else {
                self.offset
            },
            data: self.data + bytes,
        }
    }

    /// State after one mutation.
    pub open spec fn apply(self, op: BufferOp) -> BufferState {
        match op {
            BufferOp::Append(bytes) => self.append(bytes),
            BufferOp::Discard(count) => self.discard(count),
            BufferOp::Clear => self.clear(),
        }
    }

    /// State after a sequence of mutations, first to last.
    pub open spec fn apply_all(self, ops: Seq<BufferOp>) -> BufferState
        decreases ops.len(),
    {
        if ops.len() == 0 {
            self
        } else {
            self.apply(ops.first()).apply_all(ops.drop_first())
        }
    }

    /// State after appending each of `chunks` in order.
    pub open spec fn append_all(self, chunks: Seq<Seq<u8>>) -> BufferState
        decreases chunks.len(),
    {
        if chunks.len() == 0 {
            self
        } else {
            self.append(chunks.first()).append_all(chunks.drop_first())
        }
    }
}

/// A newly created buffer is well formed and holds nothing.
pub proof fn lemma_fresh_is_empty(target_capacity: nat)
    ensures
        BufferState::fresh(target_capacity).wf(),
        BufferState::fresh(target_capacity).is_empty(),
        BufferState::fresh(target_capacity).offset == 0,
{
}

/// Every mutation keeps the state well formed and the soft capacity
/// unchanged, and never shrinks the storage. The number of valid bytes only
/// grows by an append and only shrinks by a discard or a clear.
pub proof fn lemma_step_invariants(s: BufferState, op: BufferOp)
    requires
        s.wf(),
    ensures
        s.apply(op).wf(),
        s.apply(op).target_capacity == s.target_capacity,
        s.apply(op).storage_len >= s.storage_len,
        op is Append ==> s.apply(op).buffered() >= s.buffered(),
        !(op is Append) ==> s.apply(op).buffered() <= s.buffered(),
{
}

/// After any sequence of appends the valid bytes are the bytes held before,
/// followed by all appended slices in order, whatever growth or compaction
/// took place.
pub proof fn lemma_appends_concatenate(s: BufferState, chunks: Seq<Seq<u8>>)
    ensures
        s.append_all(chunks).data == s.data + chunks.flatten(),
    decreases chunks.len(),
{
    if chunks.len() == 0 {
        assert(s.data + chunks.flatten() =~= s.data);
    } else {
        lemma_appends_concatenate(s.append(chunks.first()), chunks.drop_first());
        assert((s.data + chunks.first()) + chunks.drop_first().flatten() =~= s.data + (
        chunks.first() + chunks.drop_first().flatten()));
    }
}

/// Appending to a newly created buffer yields exactly the concatenation of
/// the appended slices.
pub proof fn lemma_appends_to_fresh(target_capacity: nat, chunks: Seq<Seq<u8>>)
    ensures
        BufferState::fresh(target_capacity).append_all(chunks).data == chunks.flatten(),
{
    lemma_appends_concatenate(BufferState::fresh(target_capacity), chunks);
    assert(Seq::<u8>::empty() + chunks.flatten() =~= chunks.flatten());
}

/// The number of valid bytes after any sequence of mutations is the number
/// held before, plus the appended bytes, minus the discarded bytes (never
/// below zero), minus the cleared bytes.
pub proof fn lemma_buffered_is_count(s: BufferState, ops: Seq<BufferOp>)
    ensures
        s.apply_all(ops).buffered() == count_after_all(s.buffered(), ops),
    decreases ops.len(),
{
    if ops.len() > 0 {
        lemma_buffered_is_count(s.apply(ops.first()), ops.drop_first());
    }
}

/// A discard followed by an append leaves the bytes that the discard kept,
/// followed by the appended bytes: no discarded byte comes back.
pub proof fn lemma_discard_then_append(s: BufferState, count: nat, bytes: Seq<u8>)
    ensures
        ({
            let kept = s.buffered() - s.discarded(count);
            let after = s.discard(count).append(bytes).data;
            &&& after == s.data.skip(s.discarded(count) as int) + bytes
            &&& after.len() == kept + bytes.len()
            &&& forall|i: int| 0 <= i < kept ==> after[i] == s.data[s.discarded(count) + i]
            &&& forall|i: int| kept <= i < after.len() ==> after[i] == bytes[i - kept]
        }),
{
}

/// The buffer is full exactly when the valid bytes reach the soft capacity,
/// and no room is available exactly when it is full; otherwise the room is
/// what is missing to the soft capacity.
pub proof fn lemma_available_iff_not_full(s: BufferState)
    ensures
        s.is_full() <==> s.buffered() >= s.target_capacity,
        s.available() == 0 <==> s.is_full(),
        !s.is_full() ==> s.available() == s.target_capacity - s.buffered(),
{
}

/// Clearing twice has the same effect as clearing once.
pub proof fn lemma_clear_idempotent(s: BufferState)
    ensures
        s.clear().clear() == s.clear(),
        s.clear().is_empty(),
{
    assert(s.clear().clear().data =~= s.clear().data);
}

/// Discarding more than is buffered is the same as clearing.
pub proof fn lemma_discard_clamps(s: BufferState, count: nat)
    requires
        count >= s.buffered(),
    ensures
        s.discard(count) == s.clear(),
        s.discard(count).is_empty(),
{
}

} // verus!
