//! Writing descriptors into a descriptor table in guest memory, as a driver does.
use crate::descriptor::DESCRIPTOR_SIZE;
use crate::memory::{write_u16, write_u32, write_u64};
use vm_memory::{GuestMemoryError, GuestMemoryMmap};
use vstd::prelude::*;

verus! {

/// The record at one index of a descriptor table.
pub struct VirtqDesc {
    /// Guest address of the record.
    pub addr: u64,
}

impl VirtqDesc {
    /// The record at index `i` of the table at `dtable`.
    pub fn new(dtable: u64, i: u16) -> (r: VirtqDesc)
        requires
            dtable + Self::dtable_len_spec(i + 1) <= u64::MAX,
        ensures
            r.addr == dtable + 16 * i,
    {
        VirtqDesc { addr: dtable + DESCRIPTOR_SIZE * i as u64 }
    }

    pub open spec fn dtable_len_spec(nelem: int) -> int {
        16 * nelem
    }

    /// Bytes taken by a table of `nelem` descriptors.
    pub fn dtable_len(nelem: u16) -> (r: usize)
        ensures
            r == Self::dtable_len_spec(nelem as int),
    {
        16 * nelem as usize
    }

    /// Writes the four fields of the record.
    pub fn set(&self, mem: &GuestMemoryMmap, addr: u64, len: u32, flags: u16, next: u16) -> (r: Result<
        (),
        GuestMemoryError,
    >)
        requires
            self.addr + 16 <= u64::MAX,
    {
        match write_u64(mem, self.addr, addr) {
            Ok(()) => {},
            Err(e) => return Err(e),
        }
        match write_u32(mem, self.addr + 8, len) {
            Ok(()) => {},
            Err(e) => return Err(e),
        }
        match write_u16(mem, self.addr + 12, flags) {
            Ok(()) => {},
            Err(e) => return Err(e),
        }
        write_u16(mem, self.addr + 14, next)
    }
}

} // verus!
