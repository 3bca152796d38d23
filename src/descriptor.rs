//! The descriptor record of a split queue and the errors of chain traversal.
use vm_memory::GuestMemoryError;
use vstd::prelude::*;

verus! {

/// The buffer continues in the descriptor named by `next`.
pub const VIRTQ_DESC_F_NEXT: u16 = 0x1;

/// The device may write into the buffer (otherwise it may only read it).
pub const VIRTQ_DESC_F_WRITE: u16 = 0x2;

/// The buffer holds a table of further descriptors.
pub const VIRTQ_DESC_F_INDIRECT: u16 = 0x4;

/// Size in bytes of one descriptor record in guest memory.
pub const DESCRIPTOR_SIZE: u64 = 16;

/// One descriptor as the guest wrote it: 8-byte address, 4-byte length,
/// 2-byte flags and 2-byte next index.
#[derive(Clone, Copy, Debug, PartialEq, Eq)]
pub struct Descriptor {
    pub addr: u64,
    pub len: u32,
    pub flags: u16,
    pub next: u16,
}

impl Descriptor {
    pub open spec fn has_next_spec(self) -> bool {
        self.flags & VIRTQ_DESC_F_NEXT != 0
    }

    pub open spec fn is_write_only_spec(self) -> bool {
        self.flags & VIRTQ_DESC_F_WRITE != 0
    }

    pub open spec fn is_indirect_spec(self) -> bool {
        self.flags & VIRTQ_DESC_F_INDIRECT != 0
    }

    /// Whether `addr + len` stays inside the 64-bit address space.
    pub open spec fn fits_address_space(self) -> bool {
        self.addr + self.len <= u64::MAX
    }

    pub fn new(addr: u64, len: u32, flags: u16, next: u16) -> (r: Descriptor)
        ensures
            r == (Descriptor { addr, len, flags, next }),
    {
        Descriptor { addr, len, flags, next }
    }

    /// Guest address of the buffer.
    pub fn addr(&self) -> (r: u64)
        ensures
            r == self.addr,
    {
        self.addr
    }

    /// Length of the buffer in bytes.
    pub fn len(&self) -> (r: u32)
        ensures
            r == self.len,
    {
        self.len
    }

    pub fn flags(&self) -> (r: u16)
        ensures
            r == self.flags,
    {
        self.flags
    }

    /// Index of the next descriptor; meaningful only when `has_next` holds.
    pub fn next(&self) -> (r: u16)
        ensures
            r == self.next,
    {
        self.next
    }

    pub fn has_next(&self) -> (r: bool)
        ensures
            r == self.has_next_spec(),
    {
        self.flags & VIRTQ_DESC_F_NEXT != 0
    }

    pub fn is_write_only(&self) -> (r: bool)
        ensures
            r == self.is_write_only_spec(),
    {
        self.flags & VIRTQ_DESC_F_WRITE != 0
    }

    pub fn is_indirect(&self) -> (r: bool)
        ensures
            r == self.is_indirect_spec(),
    {
        self.flags & VIRTQ_DESC_F_INDIRECT != 0
    }
}

/// Why a descriptor chain or a ring access failed.
#[derive(Debug)]
pub enum QueueError {
    /// A ring, table or buffer lies outside guest memory.
    GuestMemory(GuestMemoryError),
    /// The chain has more links than its table allows (the guest built a cycle).
    ChainTooLong,
    /// A descriptor names an index outside its table.
    InvalidDescriptorIndex,
    /// An indirect table that is empty, misaligned in length, too large, nested,
    /// or not at the head of the chain.
    InvalidIndirectTable,
    /// The queue is not enabled, or its size is zero.
    QueueNotReady,
}

} // verus!
