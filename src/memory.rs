//! Guest memory access through `vm_memory`.
//!
//! Every function here makes one call into `vm_memory`. What guest memory holds
//! is written by an untrusted guest, so reads promise nothing about the value
//! they return: the callers decide on whatever came back.
use vm_memory::{
    Bytes, GuestAddress, GuestMemoryBackend, GuestMemoryError, GuestMemoryMmap,
};
use vstd::prelude::*;

verus! {

#[verifier::external_type_specification]
#[verifier::external_body]
#[verifier::reject_recursive_types(R)]
pub struct ExGuestRegionCollection<R>(vm_memory::GuestRegionCollection<R>);

#[verifier::external_type_specification]
#[verifier::external_body]
#[verifier::reject_recursive_types(B)]
pub struct ExGuestRegionMmap<B>(vm_memory::GuestRegionMmap<B>);

#[verifier::external_type_specification]
#[verifier::external_body]
pub struct ExGuestMemoryError(vm_memory::GuestMemoryError);

/// Relies on `Bytes::read_obj::<u16>` of `vm_memory`: reads two bytes at `addr`,
/// or fails when they are not all inside guest memory.
#[verifier::external_body]
pub(crate) fn read_u16(mem: &GuestMemoryMmap, addr: u64) -> (r: Result<u16, GuestMemoryError>) {
    mem.read_obj::<u16>(GuestAddress(addr))
}

/// Relies on `Bytes::read_obj::<u32>` of `vm_memory`.
#[verifier::external_body]
pub(crate) fn read_u32(mem: &GuestMemoryMmap, addr: u64) -> (r: Result<u32, GuestMemoryError>) {
    mem.read_obj::<u32>(GuestAddress(addr))
}

/// Relies on `Bytes::read_obj::<u64>` of `vm_memory`.
#[verifier::external_body]
pub(crate) fn read_u64(mem: &GuestMemoryMmap, addr: u64) -> (r: Result<u64, GuestMemoryError>) {
    mem.read_obj::<u64>(GuestAddress(addr))
}

/// Relies on `Bytes::write_obj::<u16>` of `vm_memory`.
#[verifier::external_body]
pub(crate) fn write_u16(mem: &GuestMemoryMmap, addr: u64, v: u16) -> (r: Result<(), GuestMemoryError>) {
    mem.write_obj::<u16>(v, GuestAddress(addr))
}

/// Relies on `Bytes::write_obj::<u32>` of `vm_memory`.
#[verifier::external_body]
pub(crate) fn write_u32(mem: &GuestMemoryMmap, addr: u64, v: u32) -> (r: Result<(), GuestMemoryError>) {
    mem.write_obj::<u32>(v, GuestAddress(addr))
}

/// Relies on `Bytes::write_obj::<u64>` of `vm_memory`.
#[verifier::external_body]
pub(crate) fn write_u64(mem: &GuestMemoryMmap, addr: u64, v: u64) -> (r: Result<(), GuestMemoryError>) {
    mem.write_obj::<u64>(v, GuestAddress(addr))
}

/// The guest addresses that the regions of `m` map. A region collection is
/// built once and never changes, so this depends on `m` alone.
pub uninterp spec fn mapped_addresses(m: GuestMemoryMmap) -> Set<int>;

/// Whether every byte of `[addr, addr + len)` lies in guest memory.
pub open spec fn range_mapped(m: GuestMemoryMmap, addr: int, len: int) -> bool {
    forall|a: int| addr <= a < addr + len ==> #[trigger] mapped_addresses(m).contains(a)
}

/// Relies on `GuestMemoryBackend::check_range` of `vm_memory`: it walks the
/// range region by region and fails at the first byte that no region maps.
#[verifier::external_body]
pub(crate) fn range_in_memory(mem: &GuestMemoryMmap, addr: u64, len: usize) -> (r: bool)
    ensures
        addr + len <= u64::MAX ==> (r <==> forall|a: int|
            addr <= a < addr + len ==> #[trigger] mapped_addresses(*mem).contains(a)),
{
    GuestMemoryBackend::check_range(mem, GuestAddress(addr), len)
}

/// Relies on `GuestMemory::checked_offset` of `vm_memory`: `addr + offset` when
/// that sum does not overflow and lies in guest memory.
#[verifier::external_body]
pub(crate) fn checked_offset(mem: &GuestMemoryMmap, addr: u64, offset: usize) -> (r: Option<u64>)
    ensures
        r matches Some(a) ==> a == addr + offset,
        addr + offset > u64::MAX ==> r is None,
{
    mem.checked_offset(GuestAddress(addr), offset).map(|a| a.0)
}

/// Relies on the variant `GuestMemoryError::InvalidGuestAddress` of `vm_memory`:
/// the error that reports `addr` as outside guest memory.
#[verifier::external_body]
pub(crate) fn invalid_guest_address(addr: u64) -> (r: GuestMemoryError) {
    GuestMemoryError::InvalidGuestAddress(GuestAddress(addr))
}

/// Relies on `std::sync::atomic::fence` with release ordering: writes made
/// before it become visible to the guest no later than writes made after it.
#[verifier::external_body]
pub(crate) fn release_fence() {
    std::sync::atomic::fence(std::sync::atomic::Ordering::Release)
}

/// Relies on `std::sync::atomic::fence` with acquire ordering: reads made after
/// it see the guest's writes that a read before it observed to be published.
#[verifier::external_body]
pub(crate) fn acquire_fence() {
    std::sync::atomic::fence(std::sync::atomic::Ordering::Acquire)
}

} // verus!
