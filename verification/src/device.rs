//! The virtio-pmem device object: construction, the transport contract, and
//! the flush-request service over the single virtqueue.

use vstd::prelude::*;
use vmm_sys_util::eventfd::EventFd;

use crate::config_space::ConfigSpace;
use crate::evfd::{eventfd_new, eventfd_read, eventfd_write};
use crate::layout::{align_up, spec_align_up};
use crate::queue::{
    rings_within, wrap16_add, wrap16_inc, write_status, DescChain, GuestMem, GuestMemError,
    QueueError, VirtQueue,
};
use crate::{ALIGNMENT, PMEM_QUEUE_SIZE, VIRTIO_F_VERSION_1};

verus! {

/// Everything that can go wrong inside the device.
#[derive(Debug)]
pub enum PmemError {
    /// The backing file could not be opened, measured, or mapped.
    BackingFileIo(std::io::Error),
    /// An eventfd could not be created or signaled.
    EventFd(std::io::Error),
    /// A descriptor the device must write is guest-read-only.
    ReadOnlyDescriptor,
    /// A descriptor the device must read is guest-write-only.
    WriteOnlyDescriptor,
    /// The request header is missing or truncated.
    MalformedRequest,
    /// The request names an opcode the device does not know.
    UnknownRequestType(u32),
    /// The chain has no status descriptor.
    DescriptorChainTooShort,
    /// A guest memory access failed.
    GuestMemory(GuestMemError),
    /// The virtqueue itself failed.
    Queue(QueueError),
    /// A restored guest address is not 2 MiB-aligned.
    UnalignedGuestAddress,
}

/// Activation failures; neither leaves the device partially activated.
#[derive(Debug)]
pub enum ActivateError {
    /// A queue's rings do not fit in the supplied guest memory.
    QueueMemoryError(QueueError),
    /// The activation eventfd could not be signaled.
    EventFd,
}

/// Interrupt classes a virtio device raises.
#[derive(Clone, Copy, PartialEq, Eq, Structural, Debug)]
pub enum IrqType {
    /// A used-ring update.
    Vring,
    /// A configuration-space change.
    Config,
}

/// The interrupt-status bit for an interrupt class.
pub open spec fn irq_bit(t: IrqType) -> u32 {
    match t {
        IrqType::Vring => 1u32,
        IrqType::Config => 2u32,
    }
}

/// The device's interrupt line towards the guest: a status word the guest
/// reads back and an eventfd towards the VMM's interrupt plumbing.
#[derive(Debug)]
pub struct IrqTrigger {
    pub irq_status: u32,
    pub irq_evt: EventFd,
}

impl IrqTrigger {
    /// A fresh interrupt line with no interrupt pending.
    pub fn new() -> (r: Result<IrqTrigger, PmemError>)
        ensures
            r matches Ok(t) ==> t.irq_status == 0,
            r matches Err(e) ==> e is EventFd,
    {
        match eventfd_new() {
            Ok(evt) => Ok(IrqTrigger { irq_status: 0, irq_evt: evt }),
            Err(e) => Err(PmemError::EventFd(e)),
        }
    }

    /// Mark the interrupt class pending and signal the line. The status bit is
    /// set even when the signal itself fails.
    pub fn trigger_irq(&mut self, t: IrqType) -> (r: Result<(), PmemError>)
        ensures
            final(self).irq_status == old(self).irq_status | irq_bit(t),
            r matches Err(e) ==> e is EventFd,
    {
        self.irq_status = self.irq_status | (match t {
            IrqType::Vring => 1u32,
            IrqType::Config => 2u32,
        });
        match eventfd_write(&self.irq_evt, 1) {
            Ok(()) => Ok(()),
            Err(e) => Err(PmemError::EventFd(e)),
        }
    }
}

/// A device is inactive until the guest driver hands it memory; it never
/// returns to inactive.
#[derive(Debug)]
pub enum DeviceState {
    Inactive,
    Activated(GuestMem),
}

impl DeviceState {
    /// Bytes of the guest memory held by an activated device.
    pub open spec fn mem_bytes(self) -> Seq<u8>
        recommends
            self is Activated,
    {
        self->Activated_0.bytes@
    }
}

/// A chain the device can complete: it has a status descriptor, the 4-byte
/// status write lies within guest memory, and the head index lies within the
/// descriptor table.
pub open spec fn chain_serviceable(c: DescChain, mem_len: int, qsize: u16) -> bool {
    &&& c.descs@.len() >= 2
    &&& c.descs@[1].addr + 4 <= mem_len
    &&& c.index < qsize
}

/// How many chains from the front of `chains` the device completes before the
/// first failure (all of them, if none fails).
pub open spec fn serviceable_prefix_len(chains: Seq<DescChain>, mem_len: int, qsize: u16) -> int
    decreases chains.len(),
{
    if chains.len() == 0 {
        0
    } else if !chain_serviceable(chains[0], mem_len, qsize) {
        0
    } else {
        1 + serviceable_prefix_len(chains.skip(1), mem_len, qsize)
    }
}

/// The used-ring entries completing `chains`: each head's index, 4 status
/// bytes written.
pub open spec fn used_entries(chains: Seq<DescChain>) -> Seq<(u16, u32)> {
    chains.map_values(|c: DescChain| (c.index, 4u32))
}

/// Guest memory after the first `n` chains' status bytes are written.
pub open spec fn statuses_written(bytes: Seq<u8>, chains: Seq<DescChain>, n: int) -> Seq<u8>
    decreases n,
{
    if n <= 0 {
        bytes
    } else {
        write_status(
            statuses_written(bytes, chains, n - 1),
            chains[n - 1].descs@[1].addr as int,
        )
    }
}

/// The error the service pass reports for the failing chain `c`.
pub open spec fn service_error_matches(c: DescChain, mem_len: int, qsize: u16, e: PmemError) -> bool {
    if c.descs@.len() < 2 {
        e is DescriptorChainTooShort
    } else if c.descs@[1].addr + 4 > mem_len {
        e matches PmemError::GuestMemory(g) && g is OutOfBounds
    } else {
        e matches PmemError::Queue(q) && q is DescIndexOutOfBounds
    }
}

/// The queue fields a service pass never touches.
pub open spec fn queue_frame(q0: VirtQueue, q1: VirtQueue) -> bool {
    &&& q1.size == q0.size
    &&& q1.ready == q0.ready
    &&& q1.desc_table == q0.desc_table
    &&& q1.avail_ring == q0.avail_ring
    &&& q1.used_ring == q0.used_ring
    &&& q1.notification_suppressed == q0.notification_suppressed
}

/// A successful service pass: all `n` pending chains were completed, their
/// status bytes written, their used entries recorded in submission order, and
/// every completion published at once.
pub open spec fn service_ok_post(q0: VirtQueue, m0: Seq<u8>, q1: VirtQueue, m1: Seq<u8>, n: int) -> bool {
    &&& n == q0.pending@.len()
    &&& q1.pending@.len() == 0
    &&& q1.used@ == q0.used@ + used_entries(q0.pending@)
    &&& q1.next_used == wrap16_add(q0.next_used, n)
    &&& q1.next_avail == wrap16_add(q0.next_avail, n)
    &&& q1.used_idx == q1.next_used
    &&& m1 == statuses_written(m0, q0.pending@, n)
    &&& m1.len() == m0.len()
}

/// A failed service pass: the chains before the failing one were completed
/// and recorded, the failing one was consumed and dropped, and nothing was
/// published to the guest.
pub open spec fn service_err_post(q0: VirtQueue, m0: Seq<u8>, q1: VirtQueue, m1: Seq<u8>, e: PmemError) -> bool {
    let k = serviceable_prefix_len(q0.pending@, m0.len() as int, q0.size);
    // The failing chain's status may already be written: the write lands
    // before the used-entry bookkeeping can still fail on the head index.
    let wrote = q0.pending@[k].descs@.len() >= 2 && q0.pending@[k].descs@[1].addr + 4 <= m0.len();
    &&& 0 <= k < q0.pending@.len()
    &&& q1.pending@ == q0.pending@.skip(k + 1)
    &&& q1.used@ == q0.used@ + used_entries(q0.pending@.take(k))
    &&& q1.next_used == wrap16_add(q0.next_used, k)
    &&& q1.next_avail == wrap16_add(q0.next_avail, k + 1)
    &&& q1.used_idx == q0.used_idx
    &&& m1 == statuses_written(m0, q0.pending@, if wrote { k + 1 } else { k })
    &&& m1.len() == m0.len()
    &&& service_error_matches(q0.pending@[k], m0.len() as int, q0.size, e)
}

/// Some service pass happened on a device's single queue, as `handle_queue`
/// leaves it: either every pending chain was completed, with the used-ring
/// interrupt marked pending unless the guest suppressed notifications, or the
/// pass failed and published nothing.
pub open spec fn service_pass_post(d0: Pmem, d1: Pmem) -> bool {
    let q0 = d0.queues@[0];
    let q1 = d1.queues@[0];
    let m0 = d0.device_state.mem_bytes();
    let m1 = d1.device_state.mem_bytes();
    ||| ({
        &&& service_ok_post(q0, m0, q1, m1, q0.pending@.len() as int)
        &&& (q0.notification_suppressed ==> d1.irq_trigger.irq_status
            == d0.irq_trigger.irq_status)
        &&& (!q0.notification_suppressed ==> d1.irq_trigger.irq_status == (
        d0.irq_trigger.irq_status | 1u32))
    })
    ||| ({
        &&& (exists|e: PmemError| service_err_post(q0, m0, q1, m1, e))
        &&& d1.irq_trigger.irq_status == d0.irq_trigger.irq_status
    })
}

/// Adding one to a wrapped sum wraps the sum of one more.
proof fn lemma_wrap16_step(base: u16, n: int)
    requires
        n >= 0,
    ensures
        wrap16_inc(wrap16_add(base, n)) == wrap16_add(base, n + 1),
{
    let m = 0x10000int;
    vstd::arithmetic::div_mod::lemma_mod_bound(base + n, m);
    vstd::arithmetic::div_mod::lemma_add_mod_noop(base + n, 1, m);
    vstd::arithmetic::div_mod::lemma_mod_bound(base + n + 1, m);
    if (base + n) % m == 0xffff {
        vstd::arithmetic::div_mod::lemma_mod_self_0(m);
    } else {
        vstd::arithmetic::div_mod::lemma_small_mod(((base + n) % m + 1) as nat, m as nat);
    }
}

/// A run of serviceable chains ending at the first failure (or at the end)
/// pins the serviceable prefix length.
proof fn lemma_serviceable_prefix_len(chains: Seq<DescChain>, mem_len: int, qsize: u16, k: int)
    requires
        0 <= k <= chains.len(),
        forall|i: int| 0 <= i < k ==> chain_serviceable(#[trigger] chains[i], mem_len, qsize),
        k < chains.len() ==> !chain_serviceable(chains[k as int], mem_len, qsize),
    ensures
        serviceable_prefix_len(chains, mem_len, qsize) == k,
    decreases chains.len(),
{
    if chains.len() == 0 {
    } else if k == 0 {
    } else {
        assert(chain_serviceable(chains[0], mem_len, qsize));
        let rest = chains.skip(1);
        assert forall|i: int| 0 <= i < k - 1 implies chain_serviceable(
            #[trigger] rest[i],
            mem_len,
            qsize,
        ) by {
            assert(rest[i] == chains[i + 1]);
        }
        if k - 1 < rest.len() {
            assert(rest[k - 1] == chains[k as int]);
        }
        lemma_serviceable_prefix_len(rest, mem_len, qsize, k - 1);
    }
}

/// Service every pending flush request on `queue`: write the 4-byte success
/// status into each chain's status descriptor, record the head as used with
/// length 4, and publish all completions with one used-ring index advance.
/// A malformed chain stops the pass; completions already recorded stay
/// unpublished until the next successful pass.
#[verifier::loop_isolation(false)]
pub fn service_flush_requests(queue: &mut VirtQueue, mem: &mut GuestMem) -> (r: Result<
    usize,
    PmemError,
>)
    ensures
        queue_frame(*old(queue), *final(queue)),
        r is Ok <==> serviceable_prefix_len(
            old(queue).pending@,
            old(mem).bytes@.len() as int,
            old(queue).size,
        ) == old(queue).pending@.len(),
        r matches Ok(n) ==> service_ok_post(
            *old(queue),
            old(mem).bytes@,
            *final(queue),
            final(mem).bytes@,
            n as int,
        ),
        (r is Ok && old(queue).next_used == old(queue).used_idx) ==> final(queue).used_idx
            == wrap16_add(old(queue).used_idx, old(queue).pending@.len() as int),
        r matches Err(e) ==> service_err_post(
            *old(queue),
            old(mem).bytes@,
            *final(queue),
            final(mem).bytes@,
            e,
        ),
{
    let ghost chains0 = queue.pending@;
    let ghost bytes0 = mem.bytes@;
    let ghost used0 = queue.used@;
    let ghost nu0 = queue.next_used;
    let ghost na0 = queue.next_avail;
    let ghost ui0 = queue.used_idx;
    let ghost q0 = *queue;
    let ghost mem_len = bytes0.len() as int;
    let qsize = queue.size;
    let total: usize = queue.pending.len();
    let mut processed: usize = 0;
    proof {
        vstd::arithmetic::div_mod::lemma_small_mod(nu0 as nat, 0x10000nat);
        vstd::arithmetic::div_mod::lemma_small_mod(na0 as nat, 0x10000nat);
        assert(used0 + used_entries(chains0.take(0)) =~= used0);
        assert(chains0.skip(0) =~= chains0);
    }
    while queue.pending.len() != 0
        invariant
            total == chains0.len(),
            processed <= total,
            queue.pending@ == chains0.skip(processed as int),
            forall|i: int|
                0 <= i < processed ==> chain_serviceable(#[trigger] chains0[i], mem_len, qsize),
            queue.used@ == used0 + used_entries(chains0.take(processed as int)),
            queue.next_used == wrap16_add(nu0, processed as int),
            queue.next_avail == wrap16_add(na0, processed as int),
            queue.used_idx == ui0,
            mem.bytes@ == statuses_written(bytes0, chains0, processed as int),
            mem.bytes@.len() == bytes0.len(),
            queue_frame(q0, *queue),
            qsize == q0.size,
        decreases chains0.len() - processed,
    {
        let head = match queue.pop_chain() {
            Some(head) => head,
            None => vstd::pervasive::unreached(),
        };
        proof {
            assert(head == chains0[processed as int]);
            assert(queue.pending@ =~= chains0.skip(processed as int + 1));
        }
        if head.descs.len() < 2 {
            proof {
                lemma_serviceable_prefix_len(chains0, mem_len, qsize, processed as int);
                lemma_wrap16_step(na0, processed as int);
            }
            return Err(PmemError::DescriptorChainTooShort);
        }
        let status_addr = head.descs[1].addr;
        match mem.write_status_ok(status_addr) {
            Ok(()) => {},
            Err(g) => {
                proof {
                    lemma_serviceable_prefix_len(chains0, mem_len, qsize, processed as int);
                    lemma_wrap16_step(na0, processed as int);
                }
                return Err(PmemError::GuestMemory(g));
            },
        }
        match queue.add_used(head.index, 4) {
            Ok(()) => {},
            Err(qe) => {
                proof {
                    lemma_serviceable_prefix_len(chains0, mem_len, qsize, processed as int);
                    lemma_wrap16_step(na0, processed as int);
                    assert(mem.bytes@ == statuses_written(bytes0, chains0, processed as int + 1));
                    assert(chain_serviceable(chains0[processed as int], mem_len, qsize)
                        == false);
                }
                return Err(PmemError::Queue(qe));
            },
        }
        proof {
            assert(chain_serviceable(chains0[processed as int], mem_len, qsize));
            assert(chains0.take(processed as int + 1)
                =~= chains0.take(processed as int).push(head));
            assert(used_entries(chains0.take(processed as int + 1)) =~= used_entries(
                chains0.take(processed as int),
            ).push((head.index, 4u32)));
            lemma_wrap16_step(nu0, processed as int);
            lemma_wrap16_step(na0, processed as int);
        }
        processed = processed + 1;
    }
    proof {
        assert(chains0.skip(processed as int).len() == 0);
        assert(processed == chains0.len());
        assert(chains0.take(processed as int) =~= chains0);
        lemma_serviceable_prefix_len(chains0, mem_len, qsize, processed as int);
    }
    queue.advance_used_ring_idx();
    Ok(processed)
}


/// The hypervisor memory-slot registration record for this device, handed to
/// the host kernel as `(slot, guest_phys_addr, memory_size, userspace_addr,
/// flags = 0)`.
#[derive(Debug)]
pub struct MemRegion {
    pub slot: u32,
    pub guest_phys_addr: u64,
    pub memory_size: u64,
    pub userspace_addr: u64,
    pub flags: u32,
}

/// A virtio-pmem device: a host file published into guest physical memory,
/// plus the flush virtqueue and the transport state around it.
#[derive(Debug)]
pub struct Pmem {
    // VirtIO fields
    pub avail_features: u64,
    pub acked_features: u64,
    pub activate_event: EventFd,
    // Transport fields
    pub device_state: DeviceState,
    pub queues: Vec<VirtQueue>,
    pub queue_events: Vec<EventFd>,
    pub irq_trigger: IrqTrigger,
    // Pmem specific fields
    pub drive_id: String,
    pub root_device: bool,
    pub config_space: ConfigSpace,
    pub backing_file_path: String,
    pub backing_file_size: u64,
    pub mmaped_file: u64,
    pub mem_slot: u32,
    pub shared: bool,
}

/// A queue as a fresh device creates it: empty, not ready, capacity `size`.
pub open spec fn fresh_queue(q: VirtQueue, size: u16) -> bool {
    &&& q.size == size
    &&& !q.ready
    &&& q.desc_table == 0 && q.avail_ring == 0 && q.used_ring == 0
    &&& q.next_avail == 0 && q.next_used == 0 && q.used_idx == 0
    &&& q.pending@.len() == 0
    &&& q.used@.len() == 0
    &&& !q.notification_suppressed
}

/// What every fresh device looks like, however it was constructed.
pub open spec fn fresh_device_common(
    d: Pmem,
    drive_id: String,
    path: String,
    root: bool,
    shared: bool,
    size: u64,
    host: u64,
) -> bool {
    &&& d.avail_features == (1u64 << VIRTIO_F_VERSION_1)
    &&& d.acked_features == 0
    &&& d.device_state is Inactive
    &&& d.irq_trigger.irq_status == 0
    &&& d.drive_id == drive_id
    &&& d.root_device == root
    &&& d.backing_file_path == path
    &&& d.backing_file_size == size
    &&& d.config_space.size == spec_align_up(size as int)
    &&& d.mmaped_file == host
    &&& d.shared == shared
    &&& d.queue_events@.len() == 1
}

/// The device fields a virtqueue-service pass never touches.
pub open spec fn device_frame(d0: Pmem, d1: Pmem) -> bool {
    &&& d1.avail_features == d0.avail_features
    &&& d1.acked_features == d0.acked_features
    &&& d1.drive_id == d0.drive_id
    &&& d1.root_device == d0.root_device
    &&& d1.config_space.start == d0.config_space.start
    &&& d1.config_space.size == d0.config_space.size
    &&& d1.backing_file_path == d0.backing_file_path
    &&& d1.backing_file_size == d0.backing_file_size
    &&& d1.mmaped_file == d0.mmaped_file
    &&& d1.mem_slot == d0.mem_slot
    &&& d1.shared == d0.shared
}

impl Pmem {
    /// Create a device over a backing file the caller has already opened,
    /// measured, and mapped: `backing_file_size` is the file's length at open
    /// time and `host_mapping_addr` the host virtual address of the mapping.
    /// The guest address starts at zero and the memory slot unassigned; the
    /// VMM fills both in when it places the device.
    pub fn new(
        drive_id: String,
        backing_file_path: String,
        root_device: bool,
        shared: bool,
        backing_file_size: u64,
        host_mapping_addr: u64,
    ) -> (r: Result<Pmem, PmemError>)
        requires
            backing_file_size + ALIGNMENT - 1 <= u64::MAX,
            host_mapping_addr != 0,
        ensures
            r matches Ok(d) ==> ({
                &&& fresh_device_common(
                    d,
                    drive_id,
                    backing_file_path,
                    root_device,
                    shared,
                    backing_file_size,
                    host_mapping_addr,
                )
                &&& d.config_space.start == 0
                &&& d.mem_slot == 0
                &&& d.queues@.len() == 1
                &&& fresh_queue(d.queues@[0], PMEM_QUEUE_SIZE)
            }),
            r matches Err(e) ==> e is EventFd,
    {
        let activate_event = match eventfd_new() {
            Ok(e) => e,
            Err(e) => {
                return Err(PmemError::EventFd(e));
            },
        };
        let queue_event = match eventfd_new() {
            Ok(e) => e,
            Err(e) => {
                return Err(PmemError::EventFd(e));
            },
        };
        let irq_trigger = match IrqTrigger::new() {
            Ok(t) => t,
            Err(e) => {
                return Err(e);
            },
        };
        let mapping_size = align_up(backing_file_size);
        let mut queues: Vec<VirtQueue> = Vec::new();
        queues.push(VirtQueue::new(PMEM_QUEUE_SIZE));
        let mut queue_events: Vec<EventFd> = Vec::new();
        queue_events.push(queue_event);
        Ok(
            Pmem {
                avail_features: 1u64 << VIRTIO_F_VERSION_1,
                acked_features: 0,
                activate_event,
                device_state: DeviceState::Inactive,
                queues,
                queue_events,
                irq_trigger,
                drive_id,
                root_device,
                config_space: ConfigSpace { start: 0, size: mapping_size },
                backing_file_path,
                backing_file_size,
                mmaped_file: host_mapping_addr,
                mem_slot: 0,
                shared,
            },
        )
    }

    /// Create a device with pre-built queues and an already chosen placement,
    /// as the restore path does. The guest address must be 2 MiB-aligned.
    pub fn new_with_queues(
        queues: Vec<VirtQueue>,
        drive_id: String,
        backing_file_path: String,
        root_device: bool,
        mem_slot: u32,
        guest_address: u64,
        shared: bool,
        backing_file_size: u64,
        host_mapping_addr: u64,
    ) -> (r: Result<Pmem, PmemError>)
        requires
            backing_file_size + ALIGNMENT - 1 <= u64::MAX,
            guest_address % ALIGNMENT == 0,
            host_mapping_addr != 0,
        ensures
            r matches Ok(d) ==> ({
                &&& fresh_device_common(
                    d,
                    drive_id,
                    backing_file_path,
                    root_device,
                    shared,
                    backing_file_size,
                    host_mapping_addr,
                )
                &&& d.config_space.start == guest_address
                &&& d.mem_slot == mem_slot
                &&& d.queues == queues
            }),
            r matches Err(e) ==> e is EventFd,
    {
        let activate_event = match eventfd_new() {
            Ok(e) => e,
            Err(e) => {
                return Err(PmemError::EventFd(e));
            },
        };
        let queue_event = match eventfd_new() {
            Ok(e) => e,
            Err(e) => {
                return Err(PmemError::EventFd(e));
            },
        };
        let irq_trigger = match IrqTrigger::new() {
            Ok(t) => t,
            Err(e) => {
                return Err(e);
            },
        };
        let mapping_size = align_up(backing_file_size);
        let mut queue_events: Vec<EventFd> = Vec::new();
        queue_events.push(queue_event);
        Ok(
            Pmem {
                avail_features: 1u64 << VIRTIO_F_VERSION_1,
                acked_features: 0,
                activate_event,
                device_state: DeviceState::Inactive,
                queues,
                queue_events,
                irq_trigger,
                drive_id,
                root_device,
                config_space: ConfigSpace { start: guest_address, size: mapping_size },
                backing_file_path,
                backing_file_size,
                mmaped_file: host_mapping_addr,
                mem_slot,
                shared,
            },
        )
    }

    /// The drive id.
    pub fn id(&self) -> (r: &str)
        ensures
            r@ == self.drive_id@,
    {
        self.drive_id.as_str()
    }

    /// The memory-slot registration record the VMM hands to the hypervisor.
    pub fn mem_region(&self) -> (r: MemRegion)
        ensures
            r.slot == self.mem_slot,
            r.guest_phys_addr == self.config_space.start,
            r.memory_size == self.config_space.size,
            r.userspace_addr == self.mmaped_file,
            r.flags == 0,
    {
        MemRegion {
            slot: self.mem_slot,
            guest_phys_addr: self.config_space.start,
            memory_size: self.config_space.size,
            userspace_addr: self.mmaped_file,
            flags: 0,
        }
    }

    /// Service all pending flush requests, then raise a used-ring interrupt
    /// unless the guest suppressed notifications. A failed interrupt signal
    /// surfaces as an eventfd error after the completions are published.
    pub fn handle_queue(&mut self) -> (r: Result<usize, PmemError>)
        requires
            old(self).device_state is Activated,
            old(self).queues@.len() == 1,
        ensures
            device_frame(*old(self), *final(self)),
            final(self).queues@.len() == 1,
            final(self).queue_events == old(self).queue_events,
            final(self).device_state is Activated,
            queue_frame(old(self).queues@[0], final(self).queues@[0]),
            final(self).device_state.mem_bytes().len() == old(self).device_state.mem_bytes().len(),
            r matches Ok(n) ==> ({
                &&& service_ok_post(
                    old(self).queues@[0],
                    old(self).device_state.mem_bytes(),
                    final(self).queues@[0],
                    final(self).device_state.mem_bytes(),
                    n as int,
                )
                &&& (old(self).queues@[0].notification_suppressed
                    ==> final(self).irq_trigger.irq_status == old(self).irq_trigger.irq_status)
                &&& (!old(self).queues@[0].notification_suppressed
                    ==> final(self).irq_trigger.irq_status == (old(self).irq_trigger.irq_status
                        | 1u32))
            }),
            r matches Err(e) ==> ({
                ||| (service_err_post(
                    old(self).queues@[0],
                    old(self).device_state.mem_bytes(),
                    final(self).queues@[0],
                    final(self).device_state.mem_bytes(),
                    e,
                ) && final(self).irq_trigger.irq_status == old(self).irq_trigger.irq_status)
                ||| (e is EventFd && !old(self).queues@[0].notification_suppressed
                    && service_ok_post(
                    old(self).queues@[0],
                    old(self).device_state.mem_bytes(),
                    final(self).queues@[0],
                    final(self).device_state.mem_bytes(),
                    old(self).queues@[0].pending@.len() as int,
                ) && final(self).irq_trigger.irq_status == (old(self).irq_trigger.irq_status
                    | 1u32))
            }),
            (r is Ok || (r matches Err(e) && e is EventFd)) <==> serviceable_prefix_len(
                old(self).queues@[0].pending@,
                old(self).device_state.mem_bytes().len() as int,
                old(self).queues@[0].size,
            ) == old(self).queues@[0].pending@.len(),
    {
        let mut queue = match self.queues.pop() {
            Some(q) => q,
            None => vstd::pervasive::unreached(),
        };
        let r = match &mut self.device_state {
            DeviceState::Activated(mem) => service_flush_requests(&mut queue, mem),
            DeviceState::Inactive => vstd::pervasive::unreached(),
        };
        let kick = queue.prepare_kick();
        self.queues.push(queue);
        match r {
            Ok(n) => {
                if kick {
                    match self.irq_trigger.trigger_irq(IrqType::Vring) {
                        Ok(()) => Ok(n),
                        Err(e) => Err(e),
                    }
                } else {
                    Ok(n)
                }
            },
            Err(e) => Err(e),
        }
    }

    /// Drain one kick from the queue eventfd and service the queue. A failed
    /// drain or a service error ends this notification's processing; the
    /// queue is not reset and the next kick retries from the current head.
    pub fn process_queue(&mut self)
        requires
            old(self).device_state is Activated,
            old(self).queues@.len() == 1,
            old(self).queue_events@.len() == 1,
        ensures
            device_frame(*old(self), *final(self)),
            final(self).queues@.len() == 1,
            final(self).device_state is Activated,
            final(self).queue_events == old(self).queue_events,
            queue_frame(old(self).queues@[0], final(self).queues@[0]),
            final(self).device_state.mem_bytes().len() == old(self).device_state.mem_bytes().len(),
            ({
                ||| (final(self).queues@[0] == old(self).queues@[0] && final(self).device_state
                    == old(self).device_state && final(self).irq_trigger.irq_status == old(
                    self,
                ).irq_trigger.irq_status)
                ||| service_pass_post(*old(self), *final(self))
            }),
    {
        let drained = match eventfd_read(&self.queue_events[0]) {
            Ok(_) => true,
            Err(_) => false,
        };
        if !drained {
            return ;
        }
        match self.handle_queue() {
            Ok(_) => {},
            Err(_) => {},
        }
    }

    /// The user-facing configuration record of the running device. The root
    /// flag is reported as false regardless of how the device was created.
    pub fn config(&self) -> (r: crate::vmm_config::PmemDeviceConfig)
        ensures
            r.drive_id@ == self.drive_id@,
            r.path_on_host@ == self.backing_file_path@,
            r.is_root_device == false,
            r.shared == self.shared,
    {
        crate::vmm_config::PmemDeviceConfig {
            drive_id: self.drive_id.clone(),
            path_on_host: self.backing_file_path.clone(),
            is_root_device: false,
            shared: self.shared,
        }
    }

    /// Features the device offers: virtio 1.0 conformance only.
    pub fn avail_features(&self) -> (r: u64)
        ensures
            r == self.avail_features,
    {
        self.avail_features
    }

    /// Features the guest driver has acknowledged.
    pub fn acked_features(&self) -> (r: u64)
        ensures
            r == self.acked_features,
    {
        self.acked_features
    }

    /// Store the guest driver's acknowledged features verbatim.
    pub fn set_acked_features(&mut self, acked_features: u64)
        ensures
            *final(self) == (Pmem { acked_features, ..*old(self) }),
    {
        self.acked_features = acked_features;
    }

    /// The virtio device type id.
    pub fn device_type(&self) -> (r: u32)
        ensures
            r == crate::TYPE_PMEM,
    {
        crate::TYPE_PMEM
    }

    /// The device's queues.
    pub fn queues(&self) -> (r: &Vec<VirtQueue>)
        ensures
            r == self.queues,
    {
        &self.queues
    }

    /// The device's queues, for the transport to configure.
    pub fn queues_mut(&mut self) -> (r: &mut Vec<VirtQueue>)
        ensures
            *r == old(self).queues,
            *final(self) == (Pmem { queues: *final(r), ..*old(self) }),
    {
        &mut self.queues
    }

    /// The kick eventfds, one per queue.
    pub fn queue_events(&self) -> (r: &Vec<EventFd>)
        ensures
            r == self.queue_events,
    {
        &self.queue_events
    }

    /// The interrupt line towards the guest.
    pub fn interrupt_trigger(&self) -> (r: &IrqTrigger)
        ensures
            r == self.irq_trigger,
    {
        &self.irq_trigger
    }

    /// Copy the guest-visible configuration window into `data`: bytes
    /// `[offset, min(offset + data.len(), 16))` of the 16-byte record. An
    /// offset beyond the window leaves `data` untouched.
    #[verifier::loop_isolation(false)]
    pub fn read_config(&self, offset: u64, data: &mut Vec<u8>)
        ensures
            final(data)@.len() == old(data)@.len(),
            offset <= 16 ==> forall|i: int|
                0 <= i < old(data)@.len() ==> final(data)@[i] == (if offset + i < 16 {
                    self.config_space.bytes()[offset + i]
                } else {
                    old(data)@[i]
                }),
            offset > 16 ==> final(data)@ == old(data)@,
    {
        if offset > 16 {
            return ;
        }
        let cfg = self.config_space.to_bytes();
        let off = offset as usize;
        let n = data.len();
        let mut out: Vec<u8> = Vec::new();
        let mut i: usize = 0;
        while i < n
            invariant
                i <= n,
                n == data@.len(),
                data@ == old(data)@,
                out@.len() == i,
                forall|j: int|
                    0 <= j < i ==> out@[j] == (if off + j < 16 {
                        self.config_space.bytes()[off + j]
                    } else {
                        data@[j]
                    }),
            decreases n - i,
        {
            if i < 16 && off + i < 16 {
                out.push(cfg[off + i]);
            } else {
                out.push(data[i]);
            }
            i = i + 1;
        }
        *data = out;
    }

    /// Writes to the configuration space are ignored: pmem config is read-only.
    pub fn write_config(&mut self, _offset: u64, _data: &Vec<u8>)
        ensures
            *final(self) == *old(self),
    {
    }

    /// Validate the queue against the supplied guest memory, signal the
    /// activation eventfd, and hand the memory to the device. Neither failure
    /// leaves the device activated.
    pub fn activate(&mut self, mem: GuestMem) -> (r: Result<(), ActivateError>)
        requires
            old(self).queues@.len() == 1,
        ensures
            device_frame(*old(self), *final(self)),
            final(self).queues@.len() == 1,
            final(self).queue_events == old(self).queue_events,
            final(self).irq_trigger.irq_status == old(self).irq_trigger.irq_status,
            (r matches Err(e) && e is QueueMemoryError) <==> !rings_within(
                old(self).queues@[0],
                mem.bytes@.len() as int,
            ),
            r is Ok ==> final(self).device_state == DeviceState::Activated(mem)
                && final(self).queues@[0] == (VirtQueue { ready: true, ..old(self).queues@[0] }),
            r matches Err(e) && e is QueueMemoryError ==> final(self).device_state
                == old(self).device_state && final(self).queues@[0] == old(self).queues@[0],
            r matches Err(e) && e is EventFd ==> final(self).device_state == old(self).device_state
                && final(self).queues@[0] == (VirtQueue { ready: true, ..old(self).queues@[0] }),
    {
        let mut q = match self.queues.pop() {
            Some(q) => q,
            None => vstd::pervasive::unreached(),
        };
        match q.initialize(&mem) {
            Err(_) => {
                self.queues.push(q);
                return Err(ActivateError::QueueMemoryError(QueueError::InvalidQueueMemory));
            },
            Ok(()) => {},
        }
        self.queues.push(q);
        match eventfd_write(&self.activate_event, 1) {
            Err(_) => {
                return Err(ActivateError::EventFd);
            },
            Ok(()) => {},
        }
        self.device_state = DeviceState::Activated(mem);
        Ok(())
    }

    /// Whether the guest driver has activated the device.
    pub fn is_activated(&self) -> (r: bool)
        ensures
            r == (self.device_state is Activated),
    {
        match &self.device_state {
            DeviceState::Activated(_) => true,
            DeviceState::Inactive => false,
        }
    }
}

} // verus!
