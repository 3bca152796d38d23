//! Queue state: ring geometry, the available and used counters, used-ring
//! publication and notification suppression.
use crate::chain::DescriptorChain;
use crate::descriptor::QueueError;
use crate::memory::{
    acquire_fence, range_in_memory, range_mapped, read_u16, release_fence, write_u16, write_u32,
};
use vm_memory::GuestMemoryMmap;
use vstd::arithmetic::power::pow;
use vstd::arithmetic::power2::{is_pow2, is_pow2_equiv};
use vstd::prelude::*;

verus! {

/// A queue size that the device accepts: non-zero, a power of two, and no
/// larger than the device's maximum.
pub open spec fn size_ok(size: u16, max_size: u16) -> bool {
    0 < size <= max_size && is_pow2(size as int)
}

/// Bytes taken by the descriptor table of a queue of `size` entries.
pub open spec fn desc_table_len(size: u16) -> int {
    16 * size
}

/// Bytes taken by the available ring: flags, index, `size` entries, event index.
pub open spec fn avail_ring_len(size: u16) -> int {
    6 + 2 * size
}

/// Bytes taken by the used ring: flags, index, `size` elements, event index.
pub open spec fn used_ring_len(size: u16) -> int {
    6 + 8 * size
}

/// The counter `x` advanced by one, modulo 2^16.
pub open spec fn wrap_inc(x: u16) -> u16 {
    ((x + 1) % 65536) as u16
}

/// `a - b` modulo 2^16.
pub open spec fn wrap_sub(a: u16, b: u16) -> int {
    (a - b) % 65536
}

/// Whether the guest asked to be notified when the used index moves from
/// `prev` to `new`, given the event index `event` that it wrote.
pub open spec fn need_event(event: u16, new: u16, prev: u16) -> bool {
    (new - event - 1) % 65536 < wrap_sub(new, prev)
}

/// The sizes a device of `max_size` accepts are exactly the powers of two
/// `2^k` with `0 < 2^k <= max_size`.
pub proof fn lemma_accepted_sizes(size: u16, max_size: u16)
    ensures
        size_ok(size, max_size) <==> 0 < size <= max_size && exists|k: nat| pow(2, k) == size,
{
    is_pow2_equiv(size as int);
}

proof fn lemma_pow2_bits(n: u16)
    requires
        n > 0,
    ensures
        is_pow2(n as int) <==> n & vstd::prelude::sub(n, 1u16) == 0,
    decreases n,
{
    reveal(is_pow2);
    if n == 1 {
        assert(1u16 & 0u16 == 0) by (bit_vector);
    } else if n % 2 == 0 {
        let h: u16 = n / 2;
        lemma_pow2_bits(h);
        assert(n % 2 == 0 && n > 1 && h == n / 2 ==> ((n & vstd::prelude::sub(n, 1u16) == 0) <==> (h & vstd::prelude::sub(h, 1u16)
            == 0))) by (bit_vector);
    } else {
        assert(n % 2 == 1 && n > 1 ==> n & vstd::prelude::sub(n, 1u16) != 0) by (bit_vector);
    }
}

/// The accepted sizes in bit form: non-zero, no larger than the maximum, and
/// with a single bit set (`size & (size - 1) == 0`).
pub proof fn lemma_accepted_sizes_bits(size: u16, max_size: u16)
    ensures
        size_ok(size, max_size) <==> size != 0 && size & vstd::prelude::sub(size, 1u16) == 0 && size <= max_size,
{
    if size > 0 {
        lemma_pow2_bits(size);
    }
}

/// One write into the used ring.
#[derive(Clone, Copy, Debug, PartialEq, Eq)]
pub enum RingWrite {
    U16 { addr: u64, half: u16 },
    U32 { addr: u64, word: u32 },
}

/// Whether `size` is an acceptable queue size for a device of `max_size`.
pub fn size_is_valid(size: u16, max_size: u16) -> (r: bool)
    ensures
        r == size_ok(size, max_size),
{
    if size == 0 || size > max_size {
        return false;
    }
    let mut n: u16 = size;
    while n > 1 && n % 2 == 0
        invariant
            n >= 1,
            is_pow2(n as int) == is_pow2(size as int),
        decreases n,
    {
        proof {
            reveal(is_pow2);
        }
        n = n / 2;
    }
    proof {
        reveal(is_pow2);
    }
    n == 1
}

fn wrapping_sub16(a: u16, b: u16) -> (r: u16)
    ensures
        r == wrap_sub(a, b),
{
    if a >= b {
        a - b
    } else {
        (65536u32 - b as u32 + a as u32) as u16
    }
}

/// Decides whether a guest that wrote event index `event` must be notified
/// when the used index moves from `prev` to `new`.
pub fn vring_need_event(event: u16, new: u16, prev: u16) -> (r: bool)
    ensures
        r == need_event(event, new, prev),
{
    let d = wrapping_sub16(new, event);
    let d1 = if d == 0 { u16::MAX } else { d - 1 };
    assert(d1 == (new - event - 1) % 65536);
    d1 < wrapping_sub16(new, prev)
}

/// A cursor over the available ring, from the queue's `next_avail` up to one
/// reading of the index that the driver published.
pub struct AvailIter {
    /// Guest address of the available ring.
    pub avail_ring: u64,
    /// Number of entries in the ring.
    pub size: u16,
    /// Next entry to hand out.
    pub next_avail: u16,
    /// The driver's published index: entries before it are available.
    pub last_index: u16,
}

impl AvailIter {
    pub open spec fn wf(self) -> bool {
        self.size > 0 && self.avail_ring + avail_ring_len(self.size) <= u64::MAX
    }

    /// Address of the ring entry that names the next chain head.
    pub open spec fn entry_addr(self) -> int {
        self.avail_ring + 4 + 2 * (self.next_avail % self.size)
    }

    /// A cursor over the entries of `q` before the published index `last_index`.
    pub fn new(q: &Queue, last_index: u16) -> (r: AvailIter)
        requires
            q.usable(),
        ensures
            r.wf(),
            r == (AvailIter {
                avail_ring: q.avail_ring,
                size: q.size,
                next_avail: q.next_avail,
                last_index,
            }),
    {
        AvailIter { avail_ring: q.avail_ring, size: q.size, next_avail: q.next_avail, last_index }
    }

    /// The address of the next available entry, moving the cursor past it; or
    /// `None` once the cursor has reached the published index.
    pub fn next_entry(&mut self) -> (r: Option<u64>)
        requires
            old(self).wf(),
        ensures
            final(self).wf(),
            old(self).next_avail == old(self).last_index ==> r is None && *final(self) == *old(
                self,
            ),
            old(self).next_avail != old(self).last_index ==> r == Some(
                old(self).entry_addr() as u64,
            ) && *final(self) == (AvailIter {
                next_avail: wrap_inc(old(self).next_avail),
                ..*old(self)
            }),
    {
        if self.next_avail == self.last_index {
            return None;
        }
        let at = self.avail_ring + 4 + 2 * (self.next_avail % self.size) as u64;
        self.next_avail = if self.next_avail == u16::MAX { 0 } else { self.next_avail + 1 };
        Some(at)
    }

    /// The next chain head the driver published, or `None` once there is none.
    pub fn next(&mut self, mem: &GuestMemoryMmap) -> (r: Option<Result<u16, QueueError>>)
        requires
            old(self).wf(),
        ensures
            final(self).wf(),
            old(self).next_avail == old(self).last_index ==> r is None && *final(self) == *old(
                self,
            ),
            old(self).next_avail != old(self).last_index ==> r is Some && final(self).next_avail
                == wrap_inc(old(self).next_avail),
    {
        match self.next_entry() {
            None => None,
            Some(at) => {
                acquire_fence();
                match read_u16(mem, at) {
                    Ok(h) => Some(Ok(h)),
                    Err(e) => Some(Err(QueueError::GuestMemory(e))),
                }
            },
        }
    }
}

/// A split queue as the device sees it.
pub struct Queue {
    /// The largest size the device supports.
    pub max_size: u16,
    /// The size the driver chose.
    pub size: u16,
    /// Whether the queue is enabled.
    pub ready: bool,
    /// Guest address of the descriptor table.
    pub desc_table: u64,
    /// Guest address of the available ring.
    pub avail_ring: u64,
    /// Guest address of the used ring.
    pub used_ring: u64,
    /// Next available-ring entry to consume.
    pub next_avail: u16,
    /// Next used-ring entry to publish.
    pub next_used: u16,
    /// Whether the event-index suppression feature was negotiated.
    pub event_idx_enabled: bool,
    /// Used index at the last notification decision, if any.
    pub signalled_used: Option<u16>,
}

impl Queue {
    /// The three rings fit in the 64-bit address space.
    pub open spec fn rings_fit(self) -> bool {
        &&& self.desc_table + desc_table_len(self.size) <= u64::MAX
        &&& self.avail_ring + avail_ring_len(self.size) <= u64::MAX
        &&& self.used_ring + used_ring_len(self.size) <= u64::MAX
    }

    /// The queue may be used: enabled, with a non-zero size and rings that fit.
    pub open spec fn usable(self) -> bool {
        self.ready && self.size > 0 && self.rings_fit()
    }

    /// Address of the used-ring element that the next publication fills.
    pub open spec fn used_elem_addr(self) -> int {
        self.used_ring + 4 + 8 * (self.next_used % self.size)
    }

    /// The writes that publish `{id, len}`, in the order they are made.
    pub open spec fn used_writes(self, id: u16, len: u32) -> Seq<RingWrite> {
        seq![
            RingWrite::U32 { addr: self.used_elem_addr() as u64, word: id as u32 },
            RingWrite::U32 { addr: (self.used_elem_addr() + 4) as u64, word: len },
            RingWrite::U16 { addr: (self.used_ring + 2) as u64, half: wrap_inc(self.next_used) },
        ]
    }

    /// A disabled queue of `max_size` entries with all addresses and counters zero.
    pub fn new(max_size: u16) -> (r: Queue)
        ensures
            r == (Queue {
                max_size,
                size: max_size,
                ready: false,
                desc_table: 0,
                avail_ring: 0,
                used_ring: 0,
                next_avail: 0,
                next_used: 0,
                event_idx_enabled: false,
                signalled_used: None,
            }),
    {
        Queue {
            max_size,
            size: max_size,
            ready: false,
            desc_table: 0,
            avail_ring: 0,
            used_ring: 0,
            next_avail: 0,
            next_used: 0,
            event_idx_enabled: false,
            signalled_used: None,
        }
    }

    fn rings_fit_exec(&self) -> (r: bool)
        ensures
            r == self.rings_fit(),
    {
        let s = self.size as u64;
        self.desc_table <= u64::MAX - 16 * s && self.avail_ring <= u64::MAX - (6 + 2 * s)
            && self.used_ring <= u64::MAX - (6 + 8 * s)
    }

    fn is_usable(&self) -> (r: bool)
        ensures
            r == self.usable(),
    {
        self.ready && self.size > 0 && self.rings_fit_exec()
    }

    /// All three rings lie in the guest memory `m`.
    pub open spec fn rings_mapped(self, m: GuestMemoryMmap) -> bool {
        &&& range_mapped(m, self.desc_table as int, desc_table_len(self.size))
        &&& range_mapped(m, self.avail_ring as int, avail_ring_len(self.size))
        &&& range_mapped(m, self.used_ring as int, used_ring_len(self.size))
    }

    /// The configuration is one the device can use with guest memory `m`.
    pub open spec fn valid_in(self, m: GuestMemoryMmap) -> bool {
        size_ok(self.size, self.max_size) && self.rings_fit() && self.rings_mapped(m)
    }

    /// Address of the available ring's published index.
    pub open spec fn avail_idx_addr(self) -> int {
        self.avail_ring + 2
    }

    /// Address of the event index the driver writes after the available ring.
    pub open spec fn used_event_addr(self) -> int {
        self.avail_ring + 4 + 2 * self.size
    }

    /// Whether the driver's configuration can be used: an acceptable size, and
    /// all three rings inside guest memory.
    pub fn is_valid(&self, mem: &GuestMemoryMmap) -> (r: bool)
        ensures
            r == self.valid_in(*mem),
    {
        if !size_is_valid(self.size, self.max_size) || !self.rings_fit_exec() {
            return false;
        }
        let s = self.size as usize;
        range_in_memory(mem, self.desc_table, 16 * s) && range_in_memory(
            mem,
            self.avail_ring,
            6 + 2 * s,
        ) && range_in_memory(mem, self.used_ring, 6 + 8 * s)
    }

    /// Address of the published index of the available ring.
    pub fn avail_idx_address(&self) -> (r: u64)
        requires
            self.usable(),
        ensures
            r == self.avail_idx_addr(),
    {
        self.avail_ring + 2
    }

    /// Address of the event index that the driver writes to suppress notifications.
    pub fn used_event_address(&self) -> (r: u64)
        requires
            self.usable(),
        ensures
            r == self.used_event_addr(),
    {
        self.avail_ring + 4 + 2 * self.size as u64
    }

    /// A cursor over the entries the driver has published so far.
    pub fn iter(&self, mem: &GuestMemoryMmap) -> (r: Result<AvailIter, QueueError>)
        ensures
            !self.usable() ==> (r matches Err(QueueError::QueueNotReady)),
            r matches Ok(it) ==> it.wf() && it.avail_ring == self.avail_ring && it.size == self.size
                && it.next_avail == self.next_avail,
            self.usable() ==> !(r matches Err(QueueError::QueueNotReady)),
            r is Err ==> !self.usable() || r matches Err(QueueError::GuestMemory(_)),
    {
        if !self.is_usable() {
            return Err(QueueError::QueueNotReady);
        }
        match read_u16(mem, self.avail_idx_address()) {
            Ok(published) => Ok(AvailIter::new(self, published)),
            Err(e) => Err(QueueError::GuestMemory(e)),
        }
    }

    /// The next chain the driver made available, or `Ok(None)` when the
    /// driver has published nothing new.
    ///
    /// Once the ring has a new entry, `next_avail` moves past it even if the
    /// entry cannot be read, so one broken entry cannot stall the queue.
    pub fn pop_descriptor_chain(&mut self, mem: &GuestMemoryMmap) -> (r: Result<
        Option<DescriptorChain>,
        QueueError,
    >)
        ensures
            !old(self).usable() ==> (r matches Err(QueueError::QueueNotReady)) && *final(self)
                == *old(self),
            old(self).usable() ==> !(r matches Err(QueueError::QueueNotReady)),
            r matches Ok(None) ==> *final(self) == *old(self),
            r matches Ok(Some(c)) ==> {
                &&& *final(self) == (Queue { next_avail: wrap_inc(old(self).next_avail), ..*old(self) })
                &&& c.wf() && c.at_head()
                &&& c.desc_table == old(self).desc_table && c.table_size == old(self).size
            },
            r is Err ==> *final(self) == *old(self) || *final(self) == (Queue {
                next_avail: wrap_inc(old(self).next_avail),
                ..*old(self)
            }),
    {
        let mut entries = match self.iter(mem) {
            Ok(it) => it,
            Err(e) => return Err(e),
        };
        let at = match entries.next_entry() {
            Some(at) => at,
            None => return Ok(None),
        };
        acquire_fence();
        self.next_avail = entries.next_avail;
        let head = match read_u16(mem, at) {
            Ok(h) => h,
            Err(e) => return Err(QueueError::GuestMemory(e)),
        };
        Ok(Some(DescriptorChain::new(self.desc_table, self.size, head)))
    }

    /// The writes that `add_used` makes, in order: the element at the slot of
    /// `next_used`, then the new used index.
    pub fn used_ring_writes(&self, id: u16, len: u32) -> (r: Vec<RingWrite>)
        requires
            self.usable(),
        ensures
            r@ == self.used_writes(id, len),
    {
        let elem = self.used_ring + 4 + 8 * (self.next_used % self.size) as u64;
        let new_used = if self.next_used == u16::MAX { 0 } else { self.next_used + 1 };
        let mut r: Vec<RingWrite> = Vec::new();
        r.push(RingWrite::U32 { addr: elem, word: id as u32 });
        r.push(RingWrite::U32 { addr: elem + 4, word: len });
        r.push(RingWrite::U16 { addr: self.used_ring + 2, half: new_used });
        assert(r@ =~= self.used_writes(id, len));
        r
    }

    /// Publishes the completion of the chain headed by `id`, into which the
    /// device wrote `len` bytes: makes the writes of `used_ring_writes` in
    /// order, with a release fence before the index, then advances `next_used`.
    pub fn add_used(&mut self, mem: &GuestMemoryMmap, id: u16, len: u32) -> (r: Result<
        (),
        QueueError,
    >)
        ensures
            !old(self).usable() ==> (r matches Err(QueueError::QueueNotReady)),
            old(self).usable() ==> !(r matches Err(QueueError::QueueNotReady)),
            r is Ok ==> *final(self) == (Queue {
                next_used: wrap_inc(old(self).next_used),
                ..*old(self)
            }),
            r is Err ==> *final(self) == *old(self),
    {
        if !self.is_usable() {
            return Err(QueueError::QueueNotReady);
        }
        let writes = self.used_ring_writes(id, len);
        let mut i: usize = 0;
        while i < writes.len()
            invariant
                writes@ == self.used_writes(id, len),
                self.usable(),
            decreases writes.len() - i,
        {
            if i == writes.len() - 1 {
                // The element must be visible before the index that publishes it.
                release_fence();
            }
            let res = match writes[i] {
                RingWrite::U16 { addr, half } => write_u16(mem, addr, half),
                RingWrite::U32 { addr, word } => write_u32(mem, addr, word),
            };
            if let Err(e) = res {
                return Err(QueueError::GuestMemory(e));
            }
            i = i + 1;
        }
        self.next_used = if self.next_used == u16::MAX { 0 } else { self.next_used + 1 };
        Ok(())
    }

    /// Whether the driver must be notified of the used entries published since
    /// the last decision; records `next_used` as decided.
    pub fn needs_notification(&mut self, mem: &GuestMemoryMmap) -> (r: Result<bool, QueueError>)
        ensures
            !old(self).usable() ==> (r matches Err(QueueError::QueueNotReady)) && *final(self)
                == *old(self),
            old(self).usable() ==> *final(self) == (Queue {
                signalled_used: Some(old(self).next_used),
                ..*old(self)
            }),
            old(self).usable() && !old(self).event_idx_enabled ==> (r matches Ok(true)),
            old(self).usable() && old(self).signalled_used is None ==> (r matches Ok(true)),
            old(self).event_idx_enabled && old(self).signalled_used == Some(old(self).next_used)
                ==> !(r matches Ok(true)),
            old(self).usable() ==> !(r matches Err(QueueError::QueueNotReady)),
            r matches Ok(false) ==> old(self).event_idx_enabled && old(self).signalled_used is Some,
    {
        if !self.is_usable() {
            return Err(QueueError::QueueNotReady);
        }
        let new = self.next_used;
        let previous = self.signalled_used;
        self.signalled_used = Some(new);
        if !self.event_idx_enabled {
            return Ok(true);
        }
        match previous {
            None => Ok(true),
            Some(old_used) => {
                let at = self.used_event_address();
                match read_u16(mem, at) {
                    Ok(event) => {
                        let b = vring_need_event(event, new, old_used);
                        proof {
                            lemma_notification_window(event, new, old_used);
                        }
                        Ok(b)
                    },
                    Err(e) => Err(QueueError::GuestMemory(e)),
                }
            },
        }
    }

    /// Enables the queue when its configuration is valid; a queue that fails
    /// `is_valid` is left disabled. Returns whether the queue is now enabled.
    pub fn enable(&mut self, mem: &GuestMemoryMmap) -> (r: bool)
        ensures
            *final(self) == (Queue { ready: r, ..*old(self) }),
            r == old(self).valid_in(*mem),
            r ==> final(self).usable(),
    {
        let valid = self.is_valid(mem);
        self.ready = valid;
        valid
    }

    /// Disables the queue and zeroes its counters.
    pub fn reset(&mut self)
        ensures
            *final(self) == (Queue {
                ready: false,
                next_avail: 0,
                next_used: 0,
                signalled_used: None,
                ..*old(self)
            }),
    {
        self.ready = false;
        self.next_avail = 0;
        self.next_used = 0;
        self.signalled_used = None;
    }
}

/// The guest is notified exactly when the event index it wrote lies in the
/// window of used indices published since the last decision, `[prev, new)`
/// taken modulo 2^16. So an empty window (`new == prev`, right after a
/// decision) never asks for a notification, and a window that moves past the
/// event index always does.
pub proof fn lemma_notification_window(event: u16, new: u16, prev: u16)
    ensures
        need_event(event, new, prev) <==> wrap_sub(event, prev) < wrap_sub(new, prev),
        !need_event(event, new, new),
{
    let d = wrap_sub(new, prev);
    let a = wrap_sub(event, prev);
    assert((new - event - 1) % 65536 == (d - a - 1) % 65536);
}

/// Publishing `{id, len}` fills the used element at slot
/// `next_used mod size` and then sets the used index to `next_used + 1`
/// (modulo 2^16): the element is written before the index.
pub proof fn lemma_used_publication(q: Queue, id: u16, len: u32)
    requires
        q.usable(),
    ensures
        q.used_writes(id, len).len() == 3,
        q.used_writes(id, len)[0] == (RingWrite::U32 {
            addr: (q.used_ring + 4 + 8 * (q.next_used % q.size)) as u64,
            word: id as u32,
        }),
        q.used_writes(id, len)[1] == (RingWrite::U32 {
            addr: (q.used_ring + 4 + 8 * (q.next_used % q.size) + 4) as u64,
            word: len,
        }),
        q.used_writes(id, len)[2] == (RingWrite::U16 {
            addr: (q.used_ring + 2) as u64,
            half: ((q.next_used + 1) % 65536) as u16,
        }),
{
}

} // verus!
