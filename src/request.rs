//! Block device requests, parsed from a descriptor chain.
use crate::chain::DescriptorChain;
use crate::descriptor::{Descriptor, QueueError};
use crate::memory::{checked_offset, invalid_guest_address, read_u32, read_u64};
use vm_memory::{GuestMemoryError, GuestMemoryMmap};
use vstd::prelude::*;

verus! {

pub const VIRTIO_BLK_T_IN: u32 = 0;
pub const VIRTIO_BLK_T_OUT: u32 = 1;
pub const VIRTIO_BLK_T_FLUSH: u32 = 4;
pub const VIRTIO_BLK_T_DISCARD: u32 = 11;
pub const VIRTIO_BLK_T_WRITE_ZEROES: u32 = 13;

/// Size in bytes of the request header: type, reserved word, sector.
pub const REQUEST_HEADER_SIZE: u32 = 16;

/// Block request errors.
#[derive(Debug)]
pub enum Error {
    /// Guest gave us too few descriptors in a descriptor chain.
    DescriptorChainTooShort,
    /// Guest gave us a descriptor that was too short to use.
    DescriptorLengthTooSmall,
    /// Guest gave us bad memory addresses.
    GuestMemory(GuestMemoryError),
    /// Guest gave us a read only descriptor that protocol says to write to.
    UnexpectedReadOnlyDescriptor,
    /// Guest gave us a write only descriptor that protocol says to read from.
    UnexpectedWriteOnlyDescriptor,
    /// The chain has more links than its table allows (the guest built a cycle).
    ChainTooLong,
    /// A descriptor names an index outside its table.
    InvalidDescriptorIndex,
    /// The chain's indirect table is empty, misaligned in length, too large,
    /// nested, or not at the head of the chain.
    InvalidIndirectTable,
}

/// Type of request from driver to device.
#[derive(Clone, Copy, Debug, PartialEq, Eq, Structural)]
pub enum RequestType {
    /// Read request.
    In,
    /// Write request.
    Out,
    /// Flush request.
    Flush,
    /// Discard request.
    Discard,
    /// Write zeroes request.
    WriteZeroes,
    /// Unknown request.
    Unsupported(u32),
}

pub open spec fn request_type_of(value: u32) -> RequestType {
    if value == VIRTIO_BLK_T_IN {
        RequestType::In
    } else if value == VIRTIO_BLK_T_OUT {
        RequestType::Out
    } else if value == VIRTIO_BLK_T_FLUSH {
        RequestType::Flush
    } else if value == VIRTIO_BLK_T_DISCARD {
        RequestType::Discard
    } else if value == VIRTIO_BLK_T_WRITE_ZEROES {
        RequestType::WriteZeroes
    } else {
        RequestType::Unsupported(value)
    }
}

impl From<u32> for RequestType {
    fn from(value: u32) -> (r: Self)
        ensures
            r == request_type_of(value),
    {
        match value {
            VIRTIO_BLK_T_IN => RequestType::In,
            VIRTIO_BLK_T_OUT => RequestType::Out,
            VIRTIO_BLK_T_FLUSH => RequestType::Flush,
            VIRTIO_BLK_T_DISCARD => RequestType::Discard,
            VIRTIO_BLK_T_WRITE_ZEROES => RequestType::WriteZeroes,
            t => RequestType::Unsupported(t),
        }
    }
}

impl vstd::std_specs::convert::FromSpecImpl<u32> for RequestType {
    open spec fn obeys_from_spec() -> bool {
        true
    }

    open spec fn from_spec(value: u32) -> RequestType {
        request_type_of(value)
    }
}

/// The request error that stands for a failed step of the chain walk.
fn chain_error(e: QueueError) -> (r: Error)
    requires
        !(e is QueueNotReady),
    ensures
        e is GuestMemory ==> r is GuestMemory,
        e is ChainTooLong ==> r is ChainTooLong,
        e is InvalidDescriptorIndex ==> r is InvalidDescriptorIndex,
        e is InvalidIndirectTable ==> r is InvalidIndirectTable,
{
    match e {
        QueueError::GuestMemory(m) => Error::GuestMemory(m),
        QueueError::ChainTooLong => Error::ChainTooLong,
        QueueError::InvalidDescriptorIndex => Error::InvalidDescriptorIndex,
        QueueError::InvalidIndirectTable => Error::InvalidIndirectTable,
        QueueError::QueueNotReady => Error::InvalidDescriptorIndex,
    }
}

/// The next buffer of the chain; a chain that has ended is too short.
fn next_descriptor(chain: &mut DescriptorChain, mem: &GuestMemoryMmap) -> (r: Result<
    Descriptor,
    Error,
>)
    requires
        old(chain).wf(),
    ensures
        final(chain).wf(),
        old(chain).done ==> (r matches Err(Error::DescriptorChainTooShort)),
        !old(chain).done && old(chain).ttl == 0 ==> (r matches Err(Error::ChainTooLong)),
        !old(chain).done && old(chain).ttl > 0 && old(chain).next_index >= old(chain).table_size
            ==> (r matches Err(Error::InvalidDescriptorIndex)),
        r matches Ok(d) ==> d.fits_address_space() && final(chain).measure() < old(chain).measure()
            && final(chain).done == !d.has_next_spec(),
        !(r matches Err(Error::UnexpectedReadOnlyDescriptor)),
        !(r matches Err(Error::UnexpectedWriteOnlyDescriptor)),
        !(r matches Err(Error::DescriptorLengthTooSmall)),
{
    match chain.next(mem) {
        Ok(Some(d)) => Ok(d),
        Ok(None) => Err(Error::DescriptorChainTooShort),
        Err(e) => Err(chain_error(e)),
    }
}

/// Request header.
#[derive(Copy, Clone, Default)]
pub struct RequestHeader {
    pub request_type: u32,
    pub reserved: u32,
    pub sector: u64,
}

/// Whether a data buffer's direction suits the request type: reads need
/// buffers the device writes, writes need buffers the device reads.
pub open spec fn data_direction_ok(t: RequestType, d: Descriptor) -> bool {
    !(d.is_write_only_spec() && t is Out) && !(!d.is_write_only_spec() && t is In)
}

/// The `(address, length)` pair of a data buffer.
pub open spec fn segment_of(d: Descriptor) -> (u64, u32) {
    (d.addr, d.len)
}

/// What `from_parts` returns for a request of type `request_type` whose
/// header is followed by the descriptors `body`.
pub open spec fn parts_result(
    request_type: RequestType,
    sector: u64,
    body: Seq<Descriptor>,
    r: Result<Request, Error>,
) -> bool {
    &&& (body.len() == 0 ==> (r matches Err(Error::DescriptorChainTooShort)))
    &&& (body.len() == 1 && !(request_type is Flush) ==> (r matches Err(
        Error::DescriptorChainTooShort,
    )))
    &&& (r matches Ok(req) ==> {
        &&& body.len() >= 2 || request_type is Flush
        &&& req.data_descriptors@.len() == body.len() - 1
        &&& forall|i: int|
            0 <= i < body.len() - 1 ==> data_direction_ok(request_type, body[i])
    })
    &&& (body.len() >= 2 || request_type is Flush ==> {
        forall|i: int|
            #![trigger body[i]]
            0 <= i < body.len() - 1 && !data_direction_ok(request_type, body[i]) && (
            forall|j: int| 0 <= j < i ==> data_direction_ok(request_type, body[j]))
                ==> if body[i].is_write_only_spec() {
                r matches Err(Error::UnexpectedWriteOnlyDescriptor)
            } else {
                r matches Err(Error::UnexpectedReadOnlyDescriptor)
            }
    })
    &&& (body.len() >= 1 && (body.len() >= 2 || request_type is Flush) && (forall|i: int|
        0 <= i < body.len() - 1 ==> data_direction_ok(request_type, body[i])) ==> {
        let status = body[body.len() - 1];
        &&& !status.is_write_only_spec() ==> (r matches Err(
            Error::UnexpectedReadOnlyDescriptor,
        ))
        &&& status.is_write_only_spec() && status.len < 1 ==> (r matches Err(
            Error::DescriptorLengthTooSmall,
        ))
        &&& status.is_write_only_spec() && status.len >= 1 ==> (r matches Ok(req) && req.request_type == request_type
            && req.sector == sector && req.status_addr == status.addr
            && req.data_descriptors@ == body.take(body.len() - 1).map_values(
            |d: Descriptor| segment_of(d),
        ))
    })
}

/// What `assemble` returns: the header descriptor `head` must be read-only
/// and hold a whole header (trailing bytes of a longer header buffer are not
/// part of the request and are ignored); then `from_parts` decides on the
/// body, and a request it accepts also needs the first four bytes of its
/// status buffer in guest memory (`status_in_memory`).
pub open spec fn assembled(
    head: Descriptor,
    header: RequestHeader,
    body: Seq<Descriptor>,
    status_in_memory: bool,
    r: Result<Request, Error>,
) -> bool {
    if head.is_write_only_spec() {
        r matches Err(Error::UnexpectedWriteOnlyDescriptor)
    } else if head.len < REQUEST_HEADER_SIZE {
        r matches Err(Error::DescriptorLengthTooSmall)
    } else {
        exists|r0: Result<Request, Error>|
            #![trigger parts_result(request_type_of(header.request_type), header.sector, body, r0)]
            parts_result(request_type_of(header.request_type), header.sector, body, r0) && (r0 is Err
                ==> r == r0) && (r0 is Ok ==> if status_in_memory {
                r == r0
            } else {
                r matches Err(Error::GuestMemory(_))
            })
    }
}

/// Stores the necessary information for further execution of a block request.
pub struct Request {
    /// The type of the request.
    pub request_type: RequestType,
    /// The (address, data length) pairs where the data descriptors point to.
    pub data_descriptors: Vec<(u64, u32)>,
    /// The offset (multiplied by 512) where the read or write is to occur.
    pub sector: u64,
    /// The address where the device should write the request status.
    pub status_addr: u64,
}

impl Request {
    /// Returns the request type.
    pub fn request_type(&self) -> (r: RequestType)
        ensures
            r == self.request_type,
    {
        self.request_type
    }

    /// Returns the data descriptors' (address, len) pairs.
    pub fn data_descriptors(&self) -> (r: &Vec<(u64, u32)>)
        ensures
            r@ == self.data_descriptors@,
    {
        &self.data_descriptors
    }

    /// Returns the sector.
    pub fn sector(&self) -> (r: u64)
        ensures
            r == self.sector,
    {
        self.sector
    }

    /// Returns the status address.
    pub fn status_addr(&self) -> (r: u64)
        ensures
            r == self.status_addr,
    {
        self.status_addr
    }

    /// Builds a request of type `request_type` from the descriptors that follow
    /// the header: all but the last carry data, the last receives the status.
    pub fn from_parts(request_type: RequestType, sector: u64, body: &Vec<Descriptor>) -> (r: Result<
        Request,
        Error,
    >)
        ensures
            parts_result(request_type, sector, body@, r),
    {
        let n = body.len();
        if n == 0 {
            return Err(Error::DescriptorChainTooShort);
        }
        if n == 1 && !matches!(request_type, RequestType::Flush) {
            return Err(Error::DescriptorChainTooShort);
        }
        let mut data: Vec<(u64, u32)> = Vec::new();
        let mut i: usize = 0;
        while i < n - 1
            invariant
                n == body@.len(),
                n >= 1,
                i <= n - 1,
                forall|j: int| 0 <= j < i ==> data_direction_ok(request_type, body@[j]),
                data@ == body@.take(i as int).map_values(|d: Descriptor| segment_of(d)),
            decreases n - 1 - i,
        {
            let d = body[i];
            if d.is_write_only() && matches!(request_type, RequestType::Out) {
                return Err(Error::UnexpectedWriteOnlyDescriptor);
            }
            if !d.is_write_only() && matches!(request_type, RequestType::In) {
                return Err(Error::UnexpectedReadOnlyDescriptor);
            }
            data.push((d.addr, d.len));
            proof {
                assert(body@.take(i + 1) =~= body@.take(i as int).push(d));
            }
            assert(data@ =~= body@.take(i + 1).map_values(|d: Descriptor| segment_of(d)));
            i = i + 1;
        }
        let status = body[n - 1];
        if !status.is_write_only() {
            return Err(Error::UnexpectedReadOnlyDescriptor);
        }
        if status.len < 1 {
            return Err(Error::DescriptorLengthTooSmall);
        }
        Ok(Request { request_type, data_descriptors: data, sector, status_addr: status.addr })
    }

    /// Decides a request from what the walk produced: the header descriptor
    /// `head`, the header fields read from it, the descriptors `body` that
    /// follow it, and whether the status buffer's first four bytes lie in
    /// guest memory.
    pub fn assemble(
        head: Descriptor,
        header: RequestHeader,
        body: &Vec<Descriptor>,
        status_in_memory: bool,
    ) -> (r: Result<Request, Error>)
        ensures
            assembled(head, header, body@, status_in_memory, r),
    {
        // The head contains the request type which MUST be readable.
        if head.is_write_only() {
            return Err(Error::UnexpectedWriteOnlyDescriptor);
        }
        if head.len < REQUEST_HEADER_SIZE {
            return Err(Error::DescriptorLengthTooSmall);
        }
        let request_type = RequestType::from(header.request_type);
        let parts = Request::from_parts(request_type, header.sector, body);
        let ghost r0 = parts;
        assert(parts_result(request_type_of(header.request_type), header.sector, body@, r0));
        match parts {
            Ok(request) => {
                if status_in_memory {
                    Ok(request)
                } else {
                    Err(Error::GuestMemory(invalid_guest_address(request.status_addr)))
                }
            },
            Err(e) => Err(e),
        }
    }

    /// Parses a request from `desc_chain`.
    ///
    /// It takes the head, reads the header fields at `head.addr` (type),
    /// `head.addr + 4` (reserved) and `head.addr + 8` (sector), walks the rest
    /// of the chain up to its last descriptor, checks the first four bytes of
    /// that last (status) buffer with `checked_offset`, and returns what
    /// `assemble` decides on those values. A write-only or short head is
    /// decided before anything is read.
    pub fn parse(desc_chain: &mut DescriptorChain, mem: &GuestMemoryMmap) -> (r: Result<
        Request,
        Error,
    >)
        requires
            old(desc_chain).wf(),
        ensures
            final(desc_chain).wf(),
            old(desc_chain).done ==> (r matches Err(Error::DescriptorChainTooShort)),
            !old(desc_chain).done && old(desc_chain).ttl == 0 ==> (r matches Err(
                Error::ChainTooLong,
            )),
            !old(desc_chain).done && old(desc_chain).ttl > 0 && old(desc_chain).next_index >= old(
                desc_chain,
            ).table_size ==> (r matches Err(Error::InvalidDescriptorIndex)),
            r is Ok ==> final(desc_chain).done,
            r is Ok || (r matches Err(Error::UnexpectedReadOnlyDescriptor)) || (r matches Err(
                Error::UnexpectedWriteOnlyDescriptor,
            )) || (r matches Err(Error::DescriptorLengthTooSmall)) ==> exists|
                head: Descriptor,
                header: RequestHeader,
                body: Seq<Descriptor>,
                status_in_memory: bool,
            | #[trigger] assembled(head, header, body, status_in_memory, r),
    {
        let head = match next_descriptor(desc_chain, mem) {
            Ok(d) => d,
            Err(e) => return Err(e),
        };
        if head.is_write_only() || head.len < REQUEST_HEADER_SIZE {
            let none: Vec<Descriptor> = Vec::new();
            let zero = RequestHeader { request_type: 0, reserved: 0, sector: 0 };
            let r = Request::assemble(head, zero, &none, false);
            assert(assembled(head, zero, none@, false, r));
            return r;
        }
        let raw_type = match read_u32(mem, head.addr) {
            Ok(v) => v,
            Err(e) => return Err(Error::GuestMemory(e)),
        };
        let reserved = match read_u32(mem, head.addr + 4) {
            Ok(v) => v,
            Err(e) => return Err(Error::GuestMemory(e)),
        };
        let sector = match read_u64(mem, head.addr + 8) {
            Ok(v) => v,
            Err(e) => return Err(Error::GuestMemory(e)),
        };
        let header = RequestHeader { request_type: raw_type, reserved, sector };
        let mut d = match next_descriptor(desc_chain, mem) {
            Ok(d) => d,
            Err(e) => return Err(e),
        };
        let mut body: Vec<Descriptor> = Vec::new();
        body.push(d);
        while d.has_next()
            invariant
                desc_chain.wf(),
                !old(desc_chain).done,
                old(desc_chain).ttl > 0,
                old(desc_chain).next_index < old(desc_chain).table_size,
                desc_chain.done == !d.has_next_spec(),
                body@.len() >= 1,
                body@[body@.len() - 1] == d,
            decreases desc_chain.measure(),
        {
            d = match next_descriptor(desc_chain, mem) {
                Ok(x) => x,
                Err(e) => return Err(e),
            };
            body.push(d);
        }
        // The device writes a u32 status here once the request is done.
        let status_in_memory = checked_offset(mem, d.addr, 4).is_some();
        let r = Request::assemble(head, header, &body, status_in_memory);
        assert(assembled(head, header, body@, status_in_memory, r));
        r
    }
}

} // verus!
