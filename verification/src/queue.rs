//! The single flush virtqueue as the device drives it: walked descriptor
//! chains, the used ring, and the guest memory the status bytes land in.

use vstd::prelude::*;

verus! {

/// One descriptor of a guest-supplied chain, as handed over by the transport's
/// chain walker: guest address, length, and whether the guest lets the device
/// write it.
#[derive(Clone, Copy, Debug)]
pub struct Descriptor {
    pub addr: u64,
    pub len: u32,
    pub writable: bool,
}

/// A walked descriptor chain: the head's index in the descriptor table and the
/// descriptors in chain order.
#[derive(Debug)]
pub struct DescChain {
    pub index: u16,
    pub descs: Vec<Descriptor>,
}

/// Failures at the queue layer.
#[derive(Clone, Copy, PartialEq, Eq, Structural, Debug)]
pub enum QueueError {
    /// A ring does not fit within the guest memory it was initialized against.
    InvalidQueueMemory,
    /// A used entry names a descriptor index outside the descriptor table.
    DescIndexOutOfBounds,
}

/// Failures on guest memory access.
#[derive(Clone, Copy, PartialEq, Eq, Structural, Debug)]
pub enum GuestMemError {
    /// The access falls outside guest memory.
    OutOfBounds,
}

/// Guest physical memory, modeled as a flat byte range starting at address zero.
#[derive(Debug)]
pub struct GuestMem {
    pub bytes: Vec<u8>,
}

/// `bytes` with the four-byte all-zero success status written at `addr`.
pub open spec fn write_status(bytes: Seq<u8>, addr: int) -> Seq<u8> {
    bytes.update(addr, 0u8).update(addr + 1, 0u8).update(addr + 2, 0u8).update(addr + 3, 0u8)
}

impl GuestMem {
    /// Number of addressable bytes.
    pub fn len(&self) -> (n: usize)
        ensures
            n == self.bytes@.len(),
    {
        self.bytes.len()
    }

    /// Read one byte of guest memory.
    pub fn read_byte(&self, addr: u64) -> (r: Result<u8, GuestMemError>)
        ensures
            r matches Ok(b) ==> addr < self.bytes@.len() && b == self.bytes@[addr as int],
            r is Err <==> addr >= self.bytes@.len(),
    {
        if addr < self.bytes.len() as u64 {
            Ok(self.bytes[addr as usize])
        } else {
            Err(GuestMemError::OutOfBounds)
        }
    }

    /// Write the 4-byte all-zero success status at `addr`, the virtio-pmem
    /// request completion code.
    pub fn write_status_ok(&mut self, addr: u64) -> (r: Result<(), GuestMemError>)
        ensures
            r is Ok <==> addr + 4 <= old(self).bytes@.len(),
            r is Ok ==> final(self).bytes@ == write_status(old(self).bytes@, addr as int),
            r is Err ==> final(self).bytes@ == old(self).bytes@,
    {
        let n = self.bytes.len();
        if n >= 4 && addr <= (n - 4) as u64 {
            let base = addr as usize;
            let mut i: usize = 0;
            while i < 4
                invariant
                    i <= 4,
                    n == self.bytes@.len(),
                    base + 4 <= n,
                    base == addr,
                    self.bytes@.len() == old(self).bytes@.len(),
                    forall|j: int|
                        0 <= j < self.bytes@.len() ==> self.bytes@[j] == (if base <= j < base + i {
                            0u8
                        } else {
                            old(self).bytes@[j]
                        }),
                decreases 4 - i,
            {
                let slot = vstd::std_specs::vec::vec_index_mut(&mut self.bytes, base + i);
                *slot = 0u8;
                i = i + 1;
            }
            proof {
                assert(final(self).bytes@ =~= write_status(old(self).bytes@, addr as int));
            }
            Ok(())
        } else {
            Err(GuestMemError::OutOfBounds)
        }
    }
}

/// `x + 1` wrapped to 16 bits, the ring-index arithmetic of virtio.
pub open spec fn wrap16_inc(x: u16) -> u16 {
    if x == 0xffff {
        0u16
    } else {
        (x + 1) as u16
    }
}

/// `base + n` wrapped to 16 bits.
pub open spec fn wrap16_add(base: u16, n: int) -> u16
    recommends
        n >= 0,
{
    ((base + n) % 0x10000) as u16
}

/// The flush virtqueue from the device's side. The transport's chain walker is
/// assumed provided: chains the guest has made available arrive in `pending`
/// in submission order, and completions the device records in `used` are
/// published to the guest when `used_idx` advances.
#[derive(Debug)]
pub struct VirtQueue {
    /// Capacity of the ring.
    pub size: u16,
    /// Whether the queue was validated against guest memory.
    pub ready: bool,
    /// Guest address of the descriptor table.
    pub desc_table: u64,
    /// Guest address of the available ring.
    pub avail_ring: u64,
    /// Guest address of the used ring.
    pub used_ring: u64,
    /// Index of the next chain the device will take.
    pub next_avail: u16,
    /// Count of completions recorded, published or not.
    pub next_used: u16,
    /// The guest-visible used-ring index: completions up to here are published.
    pub used_idx: u16,
    /// Chains available to the device, in guest submission order.
    pub pending: Vec<DescChain>,
    /// Completions recorded by the device: descriptor-table index and written length.
    pub used: Vec<(u16, u32)>,
    /// Whether the guest asked for notifications to be withheld.
    pub notification_suppressed: bool,
}

/// The queue's rings fit within `mem_len` bytes of guest memory: 16 bytes per
/// table entry, 6 bytes of ring header plus 2 per available-ring slot, and 6
/// plus 8 per used-ring slot.
pub open spec fn rings_within(q: VirtQueue, mem_len: int) -> bool {
    &&& q.desc_table + 16 * q.size <= mem_len
    &&& q.avail_ring + 6 + 2 * q.size <= mem_len
    &&& q.used_ring + 6 + 8 * q.size <= mem_len
}

impl VirtQueue {
    /// A fresh, unconfigured queue of the given capacity.
    pub fn new(size: u16) -> (q: VirtQueue)
        ensures
            q.size == size,
            !q.ready,
            q.desc_table == 0 && q.avail_ring == 0 && q.used_ring == 0,
            q.next_avail == 0 && q.next_used == 0 && q.used_idx == 0,
            q.pending@.len() == 0,
            q.used@.len() == 0,
            !q.notification_suppressed,
    {
        VirtQueue {
            size,
            ready: false,
            desc_table: 0,
            avail_ring: 0,
            used_ring: 0,
            next_avail: 0,
            next_used: 0,
            used_idx: 0,
            pending: Vec::new(),
            used: Vec::new(),
            notification_suppressed: false,
        }
    }

    /// Validate the queue's rings against the supplied guest memory and mark
    /// the queue ready.
    pub fn initialize(&mut self, mem: &GuestMem) -> (r: Result<(), QueueError>)
        ensures
            r is Ok <==> rings_within(*old(self), mem.bytes@.len() as int),
            r is Ok ==> *final(self) == (VirtQueue { ready: true, ..*old(self) }),
            r matches Err(e) ==> e is InvalidQueueMemory && *final(self) == *old(self),
    {
        let mem_len = mem.len() as u64;
        let size = self.size as u64;
        // Each bound stays well under u64::MAX: size is at most 2^16.
        if self.desc_table <= u64::MAX - 16 * size && self.desc_table + 16 * size <= mem_len
            && self.avail_ring <= u64::MAX - 6 - 2 * size
            && self.avail_ring + 6 + 2 * size <= mem_len
            && self.used_ring <= u64::MAX - 6 - 8 * size && self.used_ring + 6 + 8 * size <= mem_len
        {
            self.ready = true;
            Ok(())
        } else {
            Err(QueueError::InvalidQueueMemory)
        }
    }

    /// Take the next available chain, in submission order, advancing the
    /// device's available index.
    pub fn pop_chain(&mut self) -> (r: Option<DescChain>)
        ensures
            old(self).pending@.len() == 0 ==> r is None && *final(self) == *old(self),
            old(self).pending@.len() > 0 ==> {
                &&& r matches Some(c) && c == old(self).pending@[0]
                &&& final(self).pending@ == old(self).pending@.skip(1)
                &&& final(self).next_avail == wrap16_inc(old(self).next_avail)
                &&& *final(self) == (VirtQueue {
                    pending: final(self).pending,
                    next_avail: final(self).next_avail,
                    ..*old(self)
                })
            },
    {
        if self.pending.len() == 0 {
            None
        } else {
            let c = self.pending.remove(0);
            self.next_avail = if self.next_avail == 0xffff {
                0
            } else {
                self.next_avail + 1
            };
            Some(c)
        }
    }

    /// Record a completion for the descriptor-table entry `index`, `len` bytes
    /// written, without yet publishing it to the guest.
    pub fn add_used(&mut self, index: u16, len: u32) -> (r: Result<(), QueueError>)
        ensures
            r is Ok <==> index < old(self).size,
            r is Ok ==> {
                &&& final(self).used@ == old(self).used@.push((index, len))
                &&& final(self).next_used == wrap16_inc(old(self).next_used)
                &&& *final(self) == (VirtQueue {
                    used: final(self).used,
                    next_used: final(self).next_used,
                    ..*old(self)
                })
            },
            r matches Err(e) ==> e is DescIndexOutOfBounds && *final(self) == *old(self),
    {
        if index < self.size {
            self.used.push((index, len));
            self.next_used = if self.next_used == 0xffff {
                0
            } else {
                self.next_used + 1
            };
            Ok(())
        } else {
            Err(QueueError::DescIndexOutOfBounds)
        }
    }

    /// Publish every recorded completion to the guest in one step.
    pub fn advance_used_ring_idx(&mut self)
        ensures
            *final(self) == (VirtQueue { used_idx: old(self).next_used, ..*old(self) }),
    {
        self.used_idx = self.next_used;
    }

    /// Whether the device should raise an interrupt after publishing
    /// completions: the guest has not suppressed notifications.
    pub fn prepare_kick(&self) -> (r: bool)
        ensures
            r == !self.notification_suppressed,
    {
        !self.notification_suppressed
    }
}

} // verus!
