//! Bounded traversal of descriptor chains, with one level of indirect tables.
use crate::descriptor::{Descriptor, QueueError, DESCRIPTOR_SIZE};
use crate::memory::{invalid_guest_address, range_in_memory, read_u16, read_u32, read_u64};
use vm_memory::GuestMemoryMmap;
use vstd::prelude::*;

verus! {

/// Whether `len` bytes form a usable indirect table: non-empty, a whole number
/// of descriptor records, and no more records than a 16-bit index can name.
pub open spec fn indirect_len_ok(len: u32) -> bool {
    len > 0 && len % 16 == 0 && len / 16 <= u16::MAX
}

/// Number of records in an indirect table of `len` bytes.
pub fn indirect_table_size(len: u32) -> (r: Result<u16, QueueError>)
    ensures
        r is Ok <==> indirect_len_ok(len),
        r matches Ok(n) ==> n == len / 16,
        r is Err ==> r matches Err(QueueError::InvalidIndirectTable),
{
    if len == 0 || len % 16 != 0 || len / 16 > u16::MAX as u32 {
        Err(QueueError::InvalidIndirectTable)
    } else {
        Ok((len / 16) as u16)
    }
}

/// A walker over one descriptor chain.
///
/// It reads one record per step and never takes more steps than `ttl` allows,
/// so a chain that loops back on itself ends in `ChainTooLong`.
pub struct DescriptorChain {
    /// Guest address of the table being walked.
    pub desc_table: u64,
    /// Number of records in that table.
    pub table_size: u16,
    /// Index of the chain's first descriptor in the queue's table.
    pub head_index: u16,
    /// Index of the record the next step reads.
    pub next_index: u16,
    /// Steps left before the chain counts as too long.
    pub ttl: u16,
    /// Whether the walker has moved into an indirect table.
    pub is_indirect: bool,
    /// Whether the chain has ended, by its last descriptor or by an error.
    pub done: bool,
}

impl DescriptorChain {
    pub open spec fn wf(self) -> bool {
        self.ttl <= self.table_size
    }

    /// The next step reads the chain's first record.
    pub open spec fn at_head(self) -> bool {
        !self.is_indirect && !self.done && self.ttl == self.table_size
    }

    /// Bound on the steps left; every step that yields a descriptor lowers it.
    pub open spec fn measure(self) -> nat {
        if self.done {
            0
        } else if self.is_indirect {
            (self.ttl + 1) as nat
        } else {
            (self.ttl + 65537) as nat
        }
    }

    /// The walker after it has handed out the plain descriptor `d`.
    pub open spec fn after(self, d: Descriptor) -> DescriptorChain {
        DescriptorChain {
            ttl: (self.ttl - 1) as u16,
            next_index: if d.has_next_spec() { d.next } else { self.next_index },
            done: !d.has_next_spec(),
            ..self
        }
    }

    /// The walker after it has moved into the indirect table that `e` describes.
    pub open spec fn entered(self, e: Descriptor) -> DescriptorChain {
        DescriptorChain {
            desc_table: e.addr,
            table_size: (e.len / 16) as u16,
            next_index: 0,
            ttl: (e.len / 16) as u16,
            is_indirect: true,
            ..self
        }
    }

    /// A walker for the chain that starts at `head` in the table of a queue of
    /// `queue_size` entries at `desc_table`.
    pub fn new(desc_table: u64, queue_size: u16, head: u16) -> (r: DescriptorChain)
        ensures
            r.wf(),
            r.at_head(),
            r == (DescriptorChain {
                desc_table,
                table_size: queue_size,
                head_index: head,
                next_index: head,
                ttl: queue_size,
                is_indirect: false,
                done: false,
            }),
    {
        DescriptorChain {
            desc_table,
            table_size: queue_size,
            head_index: head,
            next_index: head,
            ttl: queue_size,
            is_indirect: false,
            done: false,
        }
    }

    /// Index of the chain's first descriptor.
    pub fn head_index(&self) -> (r: u16)
        ensures
            r == self.head_index,
    {
        self.head_index
    }

    /// Guest address of the record that the next step reads.
    pub open spec fn record_addr(self) -> int {
        self.desc_table + 16 * self.next_index
    }

    /// The whole 16-byte record at `record_addr` lies in the address space.
    pub open spec fn record_fits(self) -> bool {
        self.record_addr() + 16 <= u64::MAX
    }

    /// The address of the record that the next step reads, if the record fits
    /// in the address space.
    pub fn record_address(&self) -> (r: Option<u64>)
        ensures
            r is Some <==> self.record_fits(),
            r matches Some(a) ==> a == self.record_addr(),
    {
        let offset: u64 = self.next_index as u64 * DESCRIPTOR_SIZE;
        if self.desc_table > u64::MAX - DESCRIPTOR_SIZE - offset {
            None
        } else {
            Some(self.desc_table + offset)
        }
    }

    /// Reads the record at `record_address`: the address at offset 0, the
    /// length at 8, the flags at 12 and the next index at 14.
    fn read_current(&self, mem: &GuestMemoryMmap) -> (r: Result<Descriptor, QueueError>)
        requires
            self.wf(),
        ensures
            self.ttl == 0 ==> r matches Err(QueueError::ChainTooLong),
            self.ttl > 0 && self.next_index >= self.table_size ==> r matches Err(
                QueueError::InvalidDescriptorIndex,
            ),
            r matches Err(QueueError::ChainTooLong) ==> self.ttl == 0,
            r is Ok ==> self.ttl > 0 && self.next_index < self.table_size,
            self.ttl > 0 && self.next_index < self.table_size && !self.record_fits() ==> (r matches Err(
                QueueError::GuestMemory(_),
            )),
            !(r matches Err(QueueError::QueueNotReady)),
    {
        if self.ttl == 0 {
            return Err(QueueError::ChainTooLong);
        }
        if self.next_index >= self.table_size {
            return Err(QueueError::InvalidDescriptorIndex);
        }
        let at = match self.record_address() {
            Some(at) => at,
            None => return Err(QueueError::GuestMemory(invalid_guest_address(self.desc_table))),
        };
        let addr = match read_u64(mem, at) {
            Ok(v) => v,
            Err(e) => return Err(QueueError::GuestMemory(e)),
        };
        let len = match read_u32(mem, at + 8) {
            Ok(v) => v,
            Err(e) => return Err(QueueError::GuestMemory(e)),
        };
        let flags = match read_u16(mem, at + 12) {
            Ok(v) => v,
            Err(e) => return Err(QueueError::GuestMemory(e)),
        };
        let next = match read_u16(mem, at + 14) {
            Ok(v) => v,
            Err(e) => return Err(QueueError::GuestMemory(e)),
        };
        Ok(Descriptor { addr, len, flags, next })
    }

    /// One step of the walk, given the record `d` just read at `next_index`
    /// and whether the bytes that `d` describes lie in guest memory.
    ///
    /// A plain descriptor is handed out (`Ok(Some(d))`). An indirect one at
    /// the head of the chain moves the walker into its table (`Ok(None)`); the
    /// caller then reads that table's first record. Any error ends the chain.
    pub fn advance(&mut self, d: Descriptor, in_memory: bool) -> (r: Result<
        Option<Descriptor>,
        QueueError,
    >)
        requires
            old(self).wf(),
            old(self).ttl > 0,
            !old(self).done,
        ensures
            final(self).wf(),
            r is Err ==> final(self).done,
            !(r matches Err(QueueError::QueueNotReady)),
            d.is_indirect_spec() && !old(self).at_head() ==> (r matches Err(
                QueueError::InvalidIndirectTable,
            )),
            d.is_indirect_spec() && old(self).at_head() && !indirect_len_ok(d.len) ==> (r matches Err(
                QueueError::InvalidIndirectTable,
            )),
            d.is_indirect_spec() && old(self).at_head() && indirect_len_ok(d.len) ==> if in_memory
                && d.fits_address_space() {
                (r matches Ok(None)) && *final(self) == old(self).entered(d)
            } else {
                r matches Err(QueueError::GuestMemory(_))
            },
            !d.is_indirect_spec() ==> if in_memory && d.fits_address_space() {
                r == Ok::<Option<Descriptor>, QueueError>(Some(d)) && *final(self) == old(
                    self,
                ).after(d)
            } else {
                r matches Err(QueueError::GuestMemory(_))
            },
    {
        if d.is_indirect() {
            if self.is_indirect || self.ttl != self.table_size {
                self.done = true;
                return Err(QueueError::InvalidIndirectTable);
            }
            let n = match indirect_table_size(d.len) {
                Ok(n) => n,
                Err(err) => {
                    self.done = true;
                    return Err(err);
                },
            };
            if d.addr > u64::MAX - d.len as u64 || !in_memory {
                self.done = true;
                return Err(QueueError::GuestMemory(invalid_guest_address(d.addr)));
            }
            self.desc_table = d.addr;
            self.table_size = n;
            self.next_index = 0;
            self.ttl = n;
            self.is_indirect = true;
            return Ok(None);
        }
        if d.addr > u64::MAX - d.len as u64 || !in_memory {
            self.done = true;
            return Err(QueueError::GuestMemory(invalid_guest_address(d.addr)));
        }
        self.ttl = self.ttl - 1;
        if d.has_next() {
            self.next_index = d.next;
        } else {
            self.done = true;
        }
        Ok(Some(d))
    }

    /// The next buffer of the chain: `Ok(None)` once the chain has ended, an
    /// error (which also ends the chain) when the guest's structures are broken.
    ///
    /// Each step reads the record at `record_addr`, checks the bytes it
    /// describes with `range_in_memory`, and hands both to `advance`.
    pub fn next(&mut self, mem: &GuestMemoryMmap) -> (r: Result<Option<Descriptor>, QueueError>)
        requires
            old(self).wf(),
        ensures
            final(self).wf(),
            old(self).done ==> (r matches Ok(None)) && *final(self) == *old(self),
            !old(self).done ==> !(r matches Ok(None)),
            !old(self).done && old(self).ttl == 0 ==> r matches Err(QueueError::ChainTooLong),
            !old(self).done && old(self).ttl > 0 && old(self).next_index >= old(self).table_size
                ==> r matches Err(QueueError::InvalidDescriptorIndex),
            !old(self).done && old(self).ttl > 0 && old(self).next_index < old(self).table_size
                && !old(self).record_fits() ==> (r matches Err(QueueError::GuestMemory(_))),
            r matches Err(QueueError::ChainTooLong) ==> old(self).ttl == 0,
            !(r matches Err(QueueError::QueueNotReady)),
            r is Err ==> final(self).done,
            r matches Ok(Some(d)) ==> final(self).done == !d.has_next_spec(),
            r matches Ok(Some(d)) ==> {
                &&& !d.is_indirect_spec()
                &&& d.fits_address_space()
                &&& final(self).measure() < old(self).measure()
                &&& (*final(self) == old(self).after(d) || (old(self).at_head() && exists|
                    e: Descriptor,
                |
                    e.is_indirect_spec() && indirect_len_ok(e.len) && *final(self) == old(
                        self,
                    ).entered(e).after(d)))
            },
    {
        if self.done {
            return Ok(None);
        }
        let ghost start = *self;
        loop
            invariant
                self.wf(),
                !self.done,
                start == *old(self),
                start.ttl == 0 || start.next_index >= start.table_size || !start.record_fits()
                    ==> *self == start,
                start.wf(),
                !start.done,
                *self == start || (start.at_head() && exists|e: Descriptor|
                    e.is_indirect_spec() && indirect_len_ok(e.len) && *self == start.entered(e)),
            decreases
                if self.is_indirect { 0int } else { 1int },
        {
            let d = match self.read_current(mem) {
                Ok(d) => d,
                Err(e) => {
                    self.done = true;
                    return Err(e);
                },
            };
            let in_memory = d.addr <= u64::MAX - d.len as u64 && range_in_memory(
                mem,
                d.addr,
                d.len as usize,
            );
            let ghost before = *self;
            match self.advance(d, in_memory) {
                Ok(Some(x)) => return Ok(Some(x)),
                Ok(None) => {
                    assert(before == start);
                },
                Err(e) => return Err(e),
            }
        }
    }
}

/// The walker fed, step after step, the records of the table `tbl` whose
/// buffers all lie in guest memory, for at most `steps` steps: the state it
/// ends in and the descriptors it hands out.
pub open spec fn walk(s: DescriptorChain, tbl: Seq<Descriptor>, steps: nat) -> (
    DescriptorChain,
    Seq<Descriptor>,
)
    decreases steps,
{
    if steps == 0 || s.done || s.ttl == 0 || s.next_index >= tbl.len() {
        (s, Seq::empty())
    } else {
        let d = tbl[s.next_index as int];
        let rest = walk(s.after(d), tbl, (steps - 1) as nat);
        (rest.0, seq![d] + rest.1)
    }
}

/// The indices `links` form a chain in `tbl`: each in range and not indirect,
/// each but the last linking to the next, the last ending the chain.
pub open spec fn is_chain(tbl: Seq<Descriptor>, links: Seq<u16>) -> bool {
    &&& links.len() >= 1
    &&& forall|i: int| 0 <= i < links.len() ==> links[i] < tbl.len()
    &&& forall|i: int|
        #![trigger links[i]]
        0 <= i < links.len() ==> !tbl[links[i] as int].is_indirect_spec()
    &&& forall|i: int|
        0 <= i < links.len() - 1 ==> tbl[links[i] as int].has_next_spec() && tbl[links[i] as int].next
            == links[i + 1]
    &&& !tbl[links[links.len() - 1] as int].has_next_spec()
}

proof fn lemma_walk_suffix(s: DescriptorChain, tbl: Seq<Descriptor>, links: Seq<u16>, k: int)
    requires
        is_chain(tbl, links),
        0 <= k < links.len(),
        s.next_index == links[k],
        !s.done,
        s.ttl >= links.len() - k,
    ensures
        walk(s, tbl, (links.len() - k) as nat).1 == links.subrange(k, links.len() as int).map_values(
            |i: u16| tbl[i as int],
        ),
        walk(s, tbl, (links.len() - k) as nat).0.done,
    decreases links.len() - k,
{
    let d = tbl[links[k] as int];
    let steps = (links.len() - k) as nat;
    let tail = links.subrange(k, links.len() as int).map_values(|i: u16| tbl[i as int]);
    if k == links.len() - 1 {
        assert(walk(s.after(d), tbl, 0).1 =~= Seq::<Descriptor>::empty());
        assert(tail =~= seq![d]);
    } else {
        lemma_walk_suffix(s.after(d), tbl, links, k + 1);
        assert(tail =~= seq![d] + links.subrange(k + 1, links.len() as int).map_values(
            |i: u16| tbl[i as int],
        ));
    }
}

/// A chain of at most as many direct links as the table holds, starting at
/// the walker's head and ending in a descriptor without NEXT, is handed out
/// whole and in link order, one descriptor per step, after which the walker
/// has ended.
pub proof fn lemma_acyclic_chain_walk(s: DescriptorChain, tbl: Seq<Descriptor>, links: Seq<u16>)
    requires
        s.at_head(),
        s.table_size == tbl.len(),
        links.len() <= tbl.len(),
        s.next_index == links[0],
        is_chain(tbl, links),
    ensures
        walk(s, tbl, links.len()).1 == links.map_values(|i: u16| tbl[i as int]),
        walk(s, tbl, links.len()).0.done,
{
    lemma_walk_suffix(s, tbl, links, 0);
    assert(links.subrange(0, links.len() as int) =~= links);
}

/// A walk that starts inside a set of descriptors that all link on to members
/// of the same set (a cycle) never ends by itself: it uses up all `ttl` steps,
/// handing out one descriptor per step, and is left not done with no steps
/// left, where `next` fails with `ChainTooLong`.
pub proof fn lemma_cycle_exhausts_walk(s: DescriptorChain, tbl: Seq<Descriptor>, cycle: Set<int>)
    requires
        !s.done,
        cycle.contains(s.next_index as int),
        forall|i: int|
            #![trigger cycle.contains(i)]
            cycle.contains(i) ==> 0 <= i < tbl.len() && tbl[i].has_next_spec() && cycle.contains(
                tbl[i].next as int,
            ),
    ensures
        walk(s, tbl, s.ttl as nat).0.ttl == 0,
        !walk(s, tbl, s.ttl as nat).0.done,
        walk(s, tbl, s.ttl as nat).1.len() == s.ttl,
    decreases s.ttl,
{
    if s.ttl > 0 {
        let d = tbl[s.next_index as int];
        assert(cycle.contains(s.next_index as int));
        lemma_cycle_exhausts_walk(s.after(d), tbl, cycle);
    }
}

} // verus!
