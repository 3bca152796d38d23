use virtio_split_queue::{
    RequestHeader, VIRTQ_DESC_F_INDIRECT, DescriptorChain, Descriptor, Error, Queue, Request, RequestType, VirtqDesc, VIRTQ_DESC_F_NEXT,
    VIRTQ_DESC_F_WRITE,
};
use vm_memory::{Bytes, GuestAddress, GuestMemoryMmap};

const DESC_TABLE: u64 = 0x1000;
const HEADER: u64 = 0x4000;
const DATA: u64 = 0x5000;
const STATUS: u64 = 0x6000;
const MEM_SIZE: usize = 0x10000;

fn memory() -> GuestMemoryMmap {
    GuestMemoryMmap::from_ranges(&[(GuestAddress(0), MEM_SIZE)]).unwrap()
}

fn set_desc(mem: &GuestMemoryMmap, i: u16, addr: u64, len: u32, flags: u16, next: u16) {
    VirtqDesc::new(DESC_TABLE, i).set(mem, addr, len, flags, next).unwrap();
}

fn write_header(mem: &GuestMemoryMmap, request_type: u32, sector: u64) {
    mem.write_obj::<u32>(request_type, GuestAddress(HEADER)).unwrap();
    mem.write_obj::<u32>(0, GuestAddress(HEADER + 4)).unwrap();
    mem.write_obj::<u64>(sector, GuestAddress(HEADER + 8)).unwrap();
}

fn parse(mem: &GuestMemoryMmap) -> Result<Request, Error> {
    let mut chain = DescriptorChain::new(DESC_TABLE, 16, 0);
    Request::parse(&mut chain, mem)
}

#[test]
fn request_type_from_u32() {
    assert_eq!(RequestType::from(0), RequestType::In);
    assert_eq!(RequestType::from(1), RequestType::Out);
    assert_eq!(RequestType::from(4), RequestType::Flush);
    assert_eq!(RequestType::from(11), RequestType::Discard);
    assert_eq!(RequestType::from(13), RequestType::WriteZeroes);
    assert_eq!(RequestType::from(2), RequestType::Unsupported(2));
    assert_eq!(RequestType::from(u32::MAX), RequestType::Unsupported(u32::MAX));
}

#[test]
fn block_read_parses() {
    let mem = memory();
    write_header(&mem, 0, 42);
    set_desc(&mem, 0, HEADER, 16, VIRTQ_DESC_F_NEXT, 1);
    set_desc(&mem, 1, DATA, 512, VIRTQ_DESC_F_NEXT | VIRTQ_DESC_F_WRITE, 2);
    set_desc(&mem, 2, STATUS, 1, VIRTQ_DESC_F_WRITE, 0);
    let req = parse(&mem).unwrap();
    assert_eq!(req.request_type(), RequestType::In);
    assert_eq!(req.data_descriptors(), &vec![(DATA, 512)]);
    assert_eq!(req.sector(), 42);
    assert_eq!(req.status_addr(), STATUS);
}

#[test]
fn block_read_with_read_only_data_fails() {
    let mem = memory();
    write_header(&mem, 0, 0);
    set_desc(&mem, 0, HEADER, 16, VIRTQ_DESC_F_NEXT, 1);
    set_desc(&mem, 1, DATA, 512, VIRTQ_DESC_F_NEXT, 2);
    set_desc(&mem, 2, STATUS, 1, VIRTQ_DESC_F_WRITE, 0);
    assert!(matches!(parse(&mem), Err(Error::UnexpectedReadOnlyDescriptor)));
}

#[test]
fn block_write_with_write_only_data_fails() {
    let mem = memory();
    write_header(&mem, 1, 0);
    set_desc(&mem, 0, HEADER, 16, VIRTQ_DESC_F_NEXT, 1);
    set_desc(&mem, 1, DATA, 512, VIRTQ_DESC_F_NEXT | VIRTQ_DESC_F_WRITE, 2);
    set_desc(&mem, 2, STATUS, 1, VIRTQ_DESC_F_WRITE, 0);
    assert!(matches!(parse(&mem), Err(Error::UnexpectedWriteOnlyDescriptor)));
}

#[test]
fn block_write_two_data_buffers() {
    let mem = memory();
    write_header(&mem, 1, 8);
    set_desc(&mem, 0, HEADER, 16, VIRTQ_DESC_F_NEXT, 1);
    set_desc(&mem, 1, DATA, 512, VIRTQ_DESC_F_NEXT, 3);
    set_desc(&mem, 3, DATA + 512, 1024, VIRTQ_DESC_F_NEXT, 2);
    set_desc(&mem, 2, STATUS, 1, VIRTQ_DESC_F_WRITE, 0);
    let req = parse(&mem).unwrap();
    assert_eq!(req.request_type(), RequestType::Out);
    assert_eq!(req.data_descriptors(), &vec![(DATA, 512), (DATA + 512, 1024)]);
}

#[test]
fn flush_without_data_parses() {
    let mem = memory();
    write_header(&mem, 4, 0);
    set_desc(&mem, 0, HEADER, 16, VIRTQ_DESC_F_NEXT, 1);
    set_desc(&mem, 1, STATUS, 1, VIRTQ_DESC_F_WRITE, 0);
    let req = parse(&mem).unwrap();
    assert_eq!(req.request_type(), RequestType::Flush);
    assert!(req.data_descriptors().is_empty());
    assert_eq!(req.status_addr(), STATUS);
}

#[test]
fn read_without_data_is_too_short() {
    let mem = memory();
    write_header(&mem, 0, 0);
    set_desc(&mem, 0, HEADER, 16, VIRTQ_DESC_F_NEXT, 1);
    set_desc(&mem, 1, STATUS, 1, VIRTQ_DESC_F_WRITE, 0);
    assert!(matches!(parse(&mem), Err(Error::DescriptorChainTooShort)));
}

#[test]
fn header_alone_is_too_short() {
    let mem = memory();
    write_header(&mem, 4, 0);
    set_desc(&mem, 0, HEADER, 16, 0, 0);
    assert!(matches!(parse(&mem), Err(Error::DescriptorChainTooShort)));
}

#[test]
fn write_only_header_fails() {
    let mem = memory();
    write_header(&mem, 4, 0);
    set_desc(&mem, 0, HEADER, 16, VIRTQ_DESC_F_NEXT | VIRTQ_DESC_F_WRITE, 1);
    set_desc(&mem, 1, STATUS, 1, VIRTQ_DESC_F_WRITE, 0);
    assert!(matches!(parse(&mem), Err(Error::UnexpectedWriteOnlyDescriptor)));
}

#[test]
fn short_header_fails() {
    let mem = memory();
    write_header(&mem, 4, 0);
    set_desc(&mem, 0, HEADER, 8, VIRTQ_DESC_F_NEXT, 1);
    set_desc(&mem, 1, STATUS, 1, VIRTQ_DESC_F_WRITE, 0);
    assert!(matches!(parse(&mem), Err(Error::DescriptorLengthTooSmall)));
}

#[test]
fn read_only_status_fails() {
    let mem = memory();
    write_header(&mem, 4, 0);
    set_desc(&mem, 0, HEADER, 16, VIRTQ_DESC_F_NEXT, 1);
    set_desc(&mem, 1, STATUS, 1, 0, 0);
    assert!(matches!(parse(&mem), Err(Error::UnexpectedReadOnlyDescriptor)));
}

#[test]
fn empty_status_fails() {
    let mem = memory();
    write_header(&mem, 4, 0);
    set_desc(&mem, 0, HEADER, 16, VIRTQ_DESC_F_NEXT, 1);
    set_desc(&mem, 1, STATUS, 0, VIRTQ_DESC_F_WRITE, 0);
    assert!(matches!(parse(&mem), Err(Error::DescriptorLengthTooSmall)));
}

#[test]
fn status_at_end_of_memory_fails() {
    let mem = memory();
    write_header(&mem, 4, 0);
    set_desc(&mem, 0, HEADER, 16, VIRTQ_DESC_F_NEXT, 1);
    set_desc(&mem, 1, MEM_SIZE as u64 - 1, 1, VIRTQ_DESC_F_WRITE, 0);
    assert!(matches!(parse(&mem), Err(Error::GuestMemory(_))));
}

#[test]
fn data_outside_memory_fails() {
    let mem = memory();
    write_header(&mem, 0, 0);
    set_desc(&mem, 0, HEADER, 16, VIRTQ_DESC_F_NEXT, 1);
    set_desc(&mem, 1, MEM_SIZE as u64 - 8, 512, VIRTQ_DESC_F_NEXT | VIRTQ_DESC_F_WRITE, 2);
    set_desc(&mem, 2, STATUS, 1, VIRTQ_DESC_F_WRITE, 0);
    assert!(matches!(parse(&mem), Err(Error::GuestMemory(_))));
}

#[test]
fn cyclic_request_chain_is_invalid() {
    let mem = memory();
    write_header(&mem, 0, 0);
    set_desc(&mem, 0, HEADER, 16, VIRTQ_DESC_F_NEXT, 1);
    set_desc(&mem, 1, DATA, 512, VIRTQ_DESC_F_NEXT | VIRTQ_DESC_F_WRITE, 1);
    assert!(matches!(parse(&mem), Err(Error::ChainTooLong)));
}

#[test]
fn ended_chain_is_too_short() {
    let mem = memory();
    set_desc(&mem, 0, STATUS, 1, VIRTQ_DESC_F_WRITE, 0);
    let mut chain = DescriptorChain::new(DESC_TABLE, 16, 0);
    assert!(chain.next(&mem).unwrap().is_some());
    assert!(matches!(Request::parse(&mut chain, &mem), Err(Error::DescriptorChainTooShort)));
}

#[test]
fn from_parts_checks_directions() {
    let data = Descriptor::new(DATA, 512, VIRTQ_DESC_F_NEXT | VIRTQ_DESC_F_WRITE, 2);
    let status = Descriptor::new(STATUS, 1, VIRTQ_DESC_F_WRITE, 0);
    let req = Request::from_parts(RequestType::In, 3, &vec![data, status]).unwrap();
    assert_eq!(req.data_descriptors(), &vec![(DATA, 512)]);
    assert_eq!(req.sector(), 3);
    assert!(matches!(
        Request::from_parts(RequestType::Out, 3, &vec![data, status]),
        Err(Error::UnexpectedWriteOnlyDescriptor)
    ));
    assert!(matches!(
        Request::from_parts(RequestType::Flush, 3, &vec![]),
        Err(Error::DescriptorChainTooShort)
    ));
    assert!(Request::from_parts(RequestType::Discard, 3, &vec![status]).is_err());
}

#[test]
fn popped_request_completes() {
    let mem = memory();
    let mut q = Queue::new(16);
    q.desc_table = DESC_TABLE;
    q.avail_ring = 0x2000;
    q.used_ring = 0x3000;
    assert!(q.is_valid(&mem));
    q.ready = true;
    write_header(&mem, 0, 7);
    set_desc(&mem, 0, HEADER, 16, VIRTQ_DESC_F_NEXT, 1);
    set_desc(&mem, 1, DATA, 512, VIRTQ_DESC_F_NEXT | VIRTQ_DESC_F_WRITE, 2);
    set_desc(&mem, 2, STATUS, 1, VIRTQ_DESC_F_WRITE, 0);
    mem.write_obj::<u16>(0, GuestAddress(0x2004)).unwrap();
    mem.write_obj::<u16>(1, GuestAddress(0x2002)).unwrap();
    let mut chain = q.pop_descriptor_chain(&mem).unwrap().unwrap();
    let req = Request::parse(&mut chain, &mem).unwrap();
    assert_eq!(req.sector(), 7);
    q.add_used(&mem, chain.head_index(), 512).unwrap();
    assert_eq!(mem.read_obj::<u16>(GuestAddress(0x3002)).unwrap(), 1);
}

#[test]
fn looping_write_request_is_too_long() {
    let mem = memory();
    write_header(&mem, 1, 0);
    set_desc(&mem, 0, HEADER, 16, VIRTQ_DESC_F_NEXT, 1);
    set_desc(&mem, 1, DATA, 16, VIRTQ_DESC_F_NEXT, 0);
    let mut chain = DescriptorChain::new(DESC_TABLE, 4, 0);
    assert!(matches!(Request::parse(&mut chain, &mem), Err(Error::ChainTooLong)));
}

#[test]
fn indirect_head_of_bad_length_fails_parse() {
    let mem = memory();
    set_desc(&mem, 0, 0x8000, 20, VIRTQ_DESC_F_INDIRECT, 0);
    assert!(matches!(parse(&mem), Err(Error::InvalidIndirectTable)));
}

#[test]
fn head_index_outside_table_fails_parse() {
    let mem = memory();
    let mut chain = DescriptorChain::new(DESC_TABLE, 4, 9);
    assert!(matches!(Request::parse(&mut chain, &mem), Err(Error::InvalidDescriptorIndex)));
}

#[test]
fn request_through_indirect_table() {
    let mem = memory();
    write_header(&mem, 0, 5);
    set_desc(&mem, 0, 0x8000, 48, VIRTQ_DESC_F_INDIRECT, 0);
    VirtqDesc::new(0x8000, 0).set(&mem, HEADER, 16, VIRTQ_DESC_F_NEXT, 1).unwrap();
    VirtqDesc::new(0x8000, 1).set(&mem, DATA, 512, VIRTQ_DESC_F_NEXT | VIRTQ_DESC_F_WRITE, 2).unwrap();
    VirtqDesc::new(0x8000, 2).set(&mem, STATUS, 1, VIRTQ_DESC_F_WRITE, 0).unwrap();
    let req = parse(&mem).unwrap();
    assert_eq!(req.data_descriptors(), &vec![(DATA, 512)]);
    assert_eq!(req.sector(), 5);
}

#[test]
fn assemble_decides_from_parts() {
    let head = Descriptor::new(HEADER, 16, VIRTQ_DESC_F_NEXT, 1);
    let header = RequestHeader { request_type: 0, reserved: 0, sector: 9 };
    let data = Descriptor::new(DATA, 512, VIRTQ_DESC_F_NEXT | VIRTQ_DESC_F_WRITE, 2);
    let status = Descriptor::new(STATUS, 1, VIRTQ_DESC_F_WRITE, 0);
    let body = vec![data, status];
    let req = Request::assemble(head, header, &body, true).unwrap();
    assert_eq!(req.request_type(), RequestType::In);
    assert_eq!(req.sector(), 9);
    assert_eq!(req.data_descriptors(), &vec![(DATA, 512)]);
    assert_eq!(req.status_addr(), STATUS);
    assert!(matches!(Request::assemble(head, header, &body, false), Err(Error::GuestMemory(_))));
    let wo = Descriptor::new(HEADER, 16, VIRTQ_DESC_F_NEXT | VIRTQ_DESC_F_WRITE, 1);
    assert!(matches!(
        Request::assemble(wo, header, &body, true),
        Err(Error::UnexpectedWriteOnlyDescriptor)
    ));
    let short = Descriptor::new(HEADER, 15, VIRTQ_DESC_F_NEXT, 1);
    assert!(matches!(
        Request::assemble(short, header, &body, true),
        Err(Error::DescriptorLengthTooSmall)
    ));
    let long = Descriptor::new(HEADER, 32, VIRTQ_DESC_F_NEXT, 1);
    assert!(Request::assemble(long, header, &body, true).is_ok());
    let flush = RequestHeader { request_type: 4, reserved: 0, sector: 0 };
    assert!(Request::assemble(head, flush, &vec![status], true).is_ok());
    assert!(matches!(
        Request::assemble(head, header, &vec![status], true),
        Err(Error::DescriptorChainTooShort)
    ));
}
