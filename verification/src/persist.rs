//! Snapshot persist/restore: the stable state record of a device, and the
//! protocol that rebuilds an identical device from it.

use vstd::prelude::*;

use crate::device::{DeviceState, Pmem, PmemError};
use crate::queue::{GuestMem, VirtQueue};
use crate::{ALIGNMENT, PMEM_NUM_QUEUES, PMEM_QUEUE_SIZE, TYPE_PMEM};

verus! {

/// A queue as the snapshot captures it.
#[derive(Clone, Copy, Debug)]
pub struct QueueState {
    pub size: u16,
    pub ready: bool,
    pub desc_table: u64,
    pub avail_ring: u64,
    pub used_ring: u64,
    pub next_avail: u16,
    pub next_used: u16,
}

/// The generic virtio state record shared by all device types.
#[derive(Debug)]
pub struct VirtioDeviceState {
    pub device_type: u32,
    pub avail_features: u64,
    pub acked_features: u64,
    pub interrupt_status: u32,
    pub activated: bool,
    pub queues: Vec<QueueState>,
}

/// The stable on-disk record of a pmem device. `mapping_size` is the size the
/// config space advertised at save time; restore advertises it unchanged,
/// whatever length the backing file has meanwhile.
#[derive(Debug)]
pub struct PmemState {
    pub virtio_state: VirtioDeviceState,
    pub drive_id: String,
    pub root_device: bool,
    pub backing_file_path: String,
    pub guest_address: u64,
    pub mem_slot: u32,
    pub shared: bool,
    pub mapping_size: u64,
}

/// Snapshot-validation failures; each is fatal to restore.
#[derive(Clone, Copy, PartialEq, Eq, Structural, Debug)]
pub enum VirtioStateError {
    /// The record belongs to another device type.
    InvalidDeviceType,
    /// The record holds the wrong number of queues.
    InvalidQueueCount,
    /// A queue's capacity differs from the expected size.
    InvalidQueueSize,
    /// A queue's rings do not fit in the restored guest memory.
    InvalidQueueMemory,
}

/// Restore failures.
#[derive(Debug)]
pub enum PmemPersistError {
    /// The virtio state record did not validate against the restored VM.
    VirtioState(VirtioStateError),
    /// The device itself could not be recreated.
    Pmem(PmemError),
}

/// The snapshot record of one queue.
pub open spec fn spec_queue_state(q: VirtQueue) -> QueueState {
    QueueState {
        size: q.size,
        ready: q.ready,
        desc_table: q.desc_table,
        avail_ring: q.avail_ring,
        used_ring: q.used_ring,
        next_avail: q.next_avail,
        next_used: q.next_used,
    }
}

/// A queue rebuilt from its snapshot record: placement and indices restored,
/// every recorded completion treated as published, nothing in flight.
pub open spec fn queue_matches_state(q: VirtQueue, s: QueueState) -> bool {
    &&& q.size == s.size
    &&& q.ready == s.ready
    &&& q.desc_table == s.desc_table
    &&& q.avail_ring == s.avail_ring
    &&& q.used_ring == s.used_ring
    &&& q.next_avail == s.next_avail
    &&& q.next_used == s.next_used
    &&& q.used_idx == s.next_used
    &&& q.pending@.len() == 0
    &&& q.used@.len() == 0
    &&& !q.notification_suppressed
}

/// What `save` records of a device.
pub open spec fn saved_state_matches(d: Pmem, s: PmemState) -> bool {
    &&& s.virtio_state.device_type == TYPE_PMEM
    &&& s.virtio_state.avail_features == d.avail_features
    &&& s.virtio_state.acked_features == d.acked_features
    &&& s.virtio_state.interrupt_status == d.irq_trigger.irq_status
    &&& s.virtio_state.activated == (d.device_state is Activated)
    &&& s.virtio_state.queues@ == d.queues@.map_values(|q: VirtQueue| spec_queue_state(q))
    &&& s.drive_id == d.drive_id
    &&& s.root_device == d.root_device
    &&& s.backing_file_path == d.backing_file_path
    &&& s.guest_address == d.config_space.start
    &&& s.mem_slot == d.mem_slot
    &&& s.shared == d.shared
    &&& s.mapping_size == d.config_space.size
}

/// A snapshot record acceptable for a pmem restore: right device type, one
/// queue of the pmem capacity, rings within the restored guest memory.
pub open spec fn state_valid_for_restore(s: PmemState, mem_len: int) -> bool {
    &&& s.virtio_state.device_type == TYPE_PMEM
    &&& s.virtio_state.queues@.len() == PMEM_NUM_QUEUES
    &&& s.virtio_state.queues@[0].size == PMEM_QUEUE_SIZE
    &&& queue_state_rings_within(s.virtio_state.queues@[0], mem_len)
}

/// The ring bounds of `queue_matches_state` restated over a snapshot record.
pub open spec fn queue_state_rings_within(s: QueueState, mem_len: int) -> bool {
    &&& s.desc_table + 16 * s.size <= mem_len
    &&& s.avail_ring + 6 + 2 * s.size <= mem_len
    &&& s.used_ring + 6 + 8 * s.size <= mem_len
}

/// What a successful restore yields: the saved identity and placement, a
/// queue rebuilt from the snapshot, features and interrupt status restored,
/// and the device activated against the restored memory exactly when it was
/// activated at save time.
pub open spec fn restored_matches(
    s: PmemState,
    d: Pmem,
    mem: GuestMem,
    backing_file_size: u64,
    host_mapping_addr: u64,
) -> bool {
    &&& d.drive_id == s.drive_id
    &&& d.root_device == s.root_device
    &&& d.backing_file_path == s.backing_file_path
    &&& d.config_space.start == s.guest_address
    &&& d.config_space.size == s.mapping_size
    &&& d.mem_slot == s.mem_slot
    &&& d.shared == s.shared
    &&& d.avail_features == s.virtio_state.avail_features
    &&& d.acked_features == s.virtio_state.acked_features
    &&& d.irq_trigger.irq_status == s.virtio_state.interrupt_status
    &&& (d.device_state is Activated) == s.virtio_state.activated
    &&& (s.virtio_state.activated ==> d.device_state == DeviceState::Activated(mem))
    &&& d.backing_file_size == backing_file_size
    &&& d.mmaped_file == host_mapping_addr
    &&& d.queues@.len() == 1
    &&& queue_matches_state(d.queues@[0], s.virtio_state.queues@[0])
}

/// Rebuild the queues of a snapshot record, validating the record against the
/// restored guest memory, the expected device type, queue count, and queue
/// size. Any mismatch is a fatal restore error.
pub fn build_queues_checked(
    vs: &VirtioDeviceState,
    mem: &GuestMem,
    expected_type: u32,
    num_queues: usize,
    queue_size: u16,
) -> (r: Result<Vec<VirtQueue>, VirtioStateError>)
    ensures
        r is Ok <==> ({
            &&& vs.device_type == expected_type
            &&& vs.queues@.len() == num_queues
            &&& forall|i: int|
                0 <= i < vs.queues@.len() ==> (#[trigger] vs.queues@[i]).size == queue_size
                    && queue_state_rings_within(vs.queues@[i], mem.bytes@.len() as int)
        }),
        r matches Ok(qs) ==> ({
            &&& qs@.len() == num_queues
            &&& forall|i: int|
                0 <= i < qs@.len() ==> queue_matches_state(#[trigger] qs@[i], vs.queues@[i])
        }),
{
    if vs.device_type != expected_type {
        return Err(VirtioStateError::InvalidDeviceType);
    }
    if vs.queues.len() != num_queues {
        return Err(VirtioStateError::InvalidQueueCount);
    }
    let mem_len = mem.len() as u64;
    let mut qs: Vec<VirtQueue> = Vec::new();
    let n = vs.queues.len();
    let mut i: usize = 0;
    while i < n
        invariant
            i <= n,
            n == vs.queues@.len(),
            mem_len == mem.bytes@.len(),
            qs@.len() == i,
            forall|j: int|
                0 <= j < i ==> (#[trigger] vs.queues@[j]).size == queue_size
                    && queue_state_rings_within(vs.queues@[j], mem.bytes@.len() as int),
            forall|j: int|
                0 <= j < i ==> queue_matches_state(#[trigger] qs@[j], vs.queues@[j]),
        decreases n - i,
    {
        let s = vs.queues[i];
        if s.size != queue_size {
            return Err(VirtioStateError::InvalidQueueSize);
        }
        let size64 = s.size as u64;
        if !(s.desc_table <= u64::MAX - 16 * size64 && s.desc_table + 16 * size64 <= mem_len
            && s.avail_ring <= u64::MAX - 6 - 2 * size64 && s.avail_ring + 6 + 2 * size64
            <= mem_len && s.used_ring <= u64::MAX - 6 - 8 * size64 && s.used_ring + 6 + 8 * size64
            <= mem_len) {
            return Err(VirtioStateError::InvalidQueueMemory);
        }
        qs.push(
            VirtQueue {
                size: s.size,
                ready: s.ready,
                desc_table: s.desc_table,
                avail_ring: s.avail_ring,
                used_ring: s.used_ring,
                next_avail: s.next_avail,
                next_used: s.next_used,
                used_idx: s.next_used,
                pending: Vec::new(),
                used: Vec::new(),
                notification_suppressed: false,
            },
        );
        i = i + 1;
    }
    Ok(qs)
}

impl Pmem {
    /// Capture the device's stable state record.
    pub fn save(&self) -> (s: PmemState)
        ensures
            saved_state_matches(*self, s),
    {
        let mut queue_states: Vec<QueueState> = Vec::new();
        let n = self.queues.len();
        let mut i: usize = 0;
        while i < n
            invariant
                i <= n,
                n == self.queues@.len(),
                queue_states@.len() == i,
                forall|j: int|
                    0 <= j < i ==> #[trigger] queue_states@[j] == spec_queue_state(
                        self.queues@[j],
                    ),
            decreases n - i,
        {
            let q = &self.queues[i];
            queue_states.push(
                QueueState {
                    size: q.size,
                    ready: q.ready,
                    desc_table: q.desc_table,
                    avail_ring: q.avail_ring,
                    used_ring: q.used_ring,
                    next_avail: q.next_avail,
                    next_used: q.next_used,
                },
            );
            i = i + 1;
        }
        proof {
            assert(queue_states@ =~= self.queues@.map_values(
                |q: VirtQueue| spec_queue_state(q),
            ));
        }
        PmemState {
            virtio_state: VirtioDeviceState {
                device_type: TYPE_PMEM,
                avail_features: self.avail_features,
                acked_features: self.acked_features,
                interrupt_status: self.irq_trigger.irq_status,
                activated: self.is_activated(),
                queues: queue_states,
            },
            drive_id: self.drive_id.clone(),
            root_device: self.root_device,
            backing_file_path: self.backing_file_path.clone(),
            guest_address: self.config_space.start,
            mem_slot: self.mem_slot,
            shared: self.shared,
            mapping_size: self.config_space.size,
        }
    }

    /// Rebuild a device from its state record against restored guest memory.
    /// The caller has reopened and remapped the backing file:
    /// `backing_file_size` is its current length, `host_mapping_addr` the new
    /// mapping, which may differ from the pre-snapshot address. The config
    /// space advertises the saved size whatever the file's current length: a
    /// longer file's extra bytes are ignored, a shorter file reads as zeros
    /// past its end. A misaligned saved guest address is rejected. Activation
    /// is restored without replaying activation side effects.
    pub fn restore(
        state: &PmemState,
        mem: GuestMem,
        backing_file_size: u64,
        host_mapping_addr: u64,
    ) -> (r: Result<Pmem, PmemPersistError>)
        requires
            backing_file_size + ALIGNMENT - 1 <= u64::MAX,
            host_mapping_addr != 0,
        ensures
            (r matches Err(e) && e is VirtioState) <==> !state_valid_for_restore(
                *state,
                mem.bytes@.len() as int,
            ),
            (r matches Err(e) && e matches PmemPersistError::Pmem(p)
                && p is UnalignedGuestAddress) <==> (state_valid_for_restore(
                *state,
                mem.bytes@.len() as int,
            ) && state.guest_address % ALIGNMENT != 0),
            r matches Err(e) ==> (e matches PmemPersistError::Pmem(p) ==> (p is EventFd
                || p is UnalignedGuestAddress)),
            r matches Ok(d) ==> ({
                &&& state_valid_for_restore(*state, mem.bytes@.len() as int)
                &&& state.guest_address % ALIGNMENT == 0
                &&& restored_matches(*state, d, mem, backing_file_size, host_mapping_addr)
            }),
    {
        let queues = match build_queues_checked(
            &state.virtio_state,
            &mem,
            TYPE_PMEM,
            PMEM_NUM_QUEUES,
            PMEM_QUEUE_SIZE,
        ) {
            Ok(qs) => qs,
            Err(e) => {
                return Err(PmemPersistError::VirtioState(e));
            },
        };
        if state.guest_address % ALIGNMENT != 0 {
            return Err(PmemPersistError::Pmem(PmemError::UnalignedGuestAddress));
        }
        let mut pmem = match Pmem::new_with_queues(
            queues,
            state.drive_id.clone(),
            state.backing_file_path.clone(),
            state.root_device,
            state.mem_slot,
            state.guest_address,
            state.shared,
            backing_file_size,
            host_mapping_addr,
        ) {
            Ok(d) => d,
            Err(e) => {
                return Err(PmemPersistError::Pmem(e));
            },
        };
        pmem.config_space.size = state.mapping_size;
        pmem.avail_features = state.virtio_state.avail_features;
        pmem.acked_features = state.virtio_state.acked_features;
        pmem.irq_trigger.irq_status = state.virtio_state.interrupt_status;
        if state.virtio_state.activated {
            pmem.device_state = DeviceState::Activated(mem);
        }
        Ok(pmem)
    }
}

/// Save-then-restore idempotence: a device restored from another device's
/// saved record agrees with the original on identity, root flag, backing
/// path, guest address, memory slot, sharing mode, features, interrupt
/// status, activation, and queue ring addresses.
pub proof fn lemma_save_restore_identity(
    d: Pmem,
    s: PmemState,
    d2: Pmem,
    mem: GuestMem,
    backing_file_size: u64,
    host_mapping_addr: u64,
)
    requires
        saved_state_matches(d, s),
        restored_matches(s, d2, mem, backing_file_size, host_mapping_addr),
        d.queues@.len() == 1,
    ensures
        d2.drive_id == d.drive_id,
        d2.root_device == d.root_device,
        d2.backing_file_path == d.backing_file_path,
        d2.config_space.start == d.config_space.start,
        d2.config_space.size == d.config_space.size,
        d2.mem_slot == d.mem_slot,
        d2.shared == d.shared,
        d2.avail_features == d.avail_features,
        d2.acked_features == d.acked_features,
        d2.irq_trigger.irq_status == d.irq_trigger.irq_status,
        (d2.device_state is Activated) == (d.device_state is Activated),
        d2.queues@.len() == d.queues@.len(),
        d2.queues@[0].desc_table == d.queues@[0].desc_table,
        d2.queues@[0].avail_ring == d.queues@[0].avail_ring,
        d2.queues@[0].used_ring == d.queues@[0].used_ring,
        d2.queues@[0].size == d.queues@[0].size,
        d2.queues@[0].next_avail == d.queues@[0].next_avail,
        d2.queues@[0].next_used == d.queues@[0].next_used,
{
    assert(s.virtio_state.queues@[0] == spec_queue_state(d.queues@[0]));
}

} // verus!
