//! Growable device buffers: when a payload is written into the buffer at
//! hand and when a new buffer takes its place.

use vstd::prelude::*;

verus! {

/// What is to be done with a buffer for one frame's payload.
#[derive(Clone, Copy, Debug, PartialEq, Eq, Structural)]
pub enum BufferAction {
    /// Make a new buffer that holds exactly the payload, and drop the old one.
    Allocate,
    /// Write the payload into the buffer at hand.
    Write,
}

/// A device buffer that is kept from frame to frame: whether there is one,
/// and how many bytes it holds.
#[derive(Clone, Copy, Debug, PartialEq, Eq, Structural)]
pub struct BufferSlot {
    pub allocated: bool,
    pub size: usize,
}

impl BufferSlot {
    /// Whether a payload of `required` bytes needs a new buffer: there is
    /// none yet, or the one at hand is too small.
    pub open spec fn must_allocate(self, required: usize) -> bool {
        !self.allocated || self.size < required
    }

    /// What a payload of `required` bytes asks of the slot.
    pub open spec fn action_for(self, required: usize) -> BufferAction {
        if self.must_allocate(required) {
            BufferAction::Allocate
        } else {
            BufferAction::Write
        }
    }

    /// The slot once a payload of `required` bytes has gone into it.
    pub open spec fn after(self, required: usize) -> BufferSlot {
        if self.must_allocate(required) {
            BufferSlot { allocated: true, size: required }
        } else {
            self
        }
    }

    /// A slot without a buffer.
    pub fn empty() -> (slot: BufferSlot)
        ensures
            slot == (BufferSlot { allocated: false, size: 0 }),
    {
        BufferSlot { allocated: false, size: 0 }
    }

    /// Makes room for a payload of `required` bytes and says how the payload
    /// gets into the buffer.
    pub fn ensure_capacity(&mut self, required: usize) -> (action: BufferAction)
        ensures
            action == old(self).action_for(required),
            *final(self) == old(self).after(required),
    {
        if !self.allocated || self.size < required {
            self.allocated = true;
            self.size = required;
            BufferAction::Allocate
        } else {
            BufferAction::Write
        }
    }
}

/// A payload that is no larger than the one before it goes into the buffer
/// that the one before left: nothing is allocated, and the slot stays as it
/// is.
pub proof fn lemma_no_larger_payload_reuses(slot: BufferSlot, first: usize, second: usize)
    requires
        second <= first,
    ensures
        slot.after(first).action_for(second) == BufferAction::Write,
        slot.after(first).after(second) == slot.after(first),
{
}

/// A payload that is larger than the buffer at hand gets a new buffer of
/// exactly its own length.
pub proof fn lemma_larger_payload_allocates(slot: BufferSlot, required: usize)
    requires
        required > slot.size,
    ensures
        slot.action_for(required) == BufferAction::Allocate,
        slot.after(required) == (BufferSlot { allocated: true, size: required }),
{
}

/// Of two payloads in a row that each outgrow what was there before, the
/// second gets a new buffer of exactly its own length.
pub proof fn lemma_growing_payload_allocates(slot: BufferSlot, first: usize, second: usize)
    requires
        slot.must_allocate(first),
        second > first,
    ensures
        slot.after(first).action_for(second) == BufferAction::Allocate,
        slot.after(first).after(second).size == second,
{
}

/// The buffer at hand never shrinks, and always holds the payload that went
/// into it last.
pub proof fn lemma_capacity_covers_payload(slot: BufferSlot, required: usize)
    ensures
        slot.after(required).allocated,
        slot.after(required).size >= required,
        slot.allocated ==> slot.after(required).size >= slot.size,
{
}

/// The length of a payload of `len` bytes once it is padded for a copy:
/// `len` itself where it is a multiple of four, and the next multiple of four
/// where it is not.
pub open spec fn padded_len(len: nat) -> nat {
    if len % 4 == 0 {
        len
    } else {
        (len + 4 - len % 4) as nat
    }
}

/// A padded length is a multiple of four that has room for the payload,
/// with fewer than four bytes to spare; a length that is a multiple of four
/// stays as it is.
pub proof fn lemma_padded_len(len: nat)
    ensures
        padded_len(len) % 4 == 0,
        len <= padded_len(len) < len + 4,
        len % 4 == 0 ==> padded_len(len) == len,
{
}

/// No multiple of four with room for the payload is below the padded length.
pub proof fn lemma_padded_len_is_least(len: nat, other: nat)
    requires
        other % 4 == 0,
        len <= other,
    ensures
        padded_len(len) <= other,
{
}

/// `wgpu::COPY_BUFFER_ALIGNMENT`: the number of bytes that the length of a
/// buffer copy must be a multiple of, which is four.
#[verifier::external_body]
pub(crate) fn copy_buffer_alignment() -> (alignment: u64)
    ensures
        alignment == 4,
{
    wgpu::COPY_BUFFER_ALIGNMENT
}

} // verus!
