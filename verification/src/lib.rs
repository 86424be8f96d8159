//! A virtio-pmem device core: memory-mapping layout, virtio transport state,
//! virtqueue flush service, snapshot persist/restore, and the auxiliary
//! userfaultfd page-fault bookkeeping.

use vstd::prelude::*;

mod config_space;
mod device;
mod evfd;
mod layout;
mod persist;
mod queue;
mod request;
mod uffd;
mod vmm_config;

pub use config_space::ConfigSpace;
pub use device::{
    service_flush_requests, ActivateError, DeviceState, IrqTrigger, IrqType, MemRegion, Pmem,
    PmemError,
};
pub use vmm_config::{
    PmemBuilder, PmemConfigError, PmemDeviceConfig, PmemDeviceUpdateConfig,
};
pub use layout::{align_up, mapping_contents};
pub use persist::{
    build_queues_checked, PmemPersistError, PmemState, QueueState, VirtioDeviceState,
    VirtioStateError,
};
pub use queue::{DescChain, Descriptor, GuestMem, GuestMemError, QueueError, VirtQueue};
pub use request::{parse_put_pmem, ParsedRequest, RequestError, StatusCode, VmmAction};
pub use uffd::{MemPageState, PageRange, UffdEvent, UffdHandlerState, UffdReply};

verus! {

/// Guest addresses and mapping sizes must be multiples of 2 MiB.
pub const ALIGNMENT: u64 = 2 * 1024 * 1024;

/// Hypervisor memory slots below this index are reserved for the VMM itself.
pub const MEM_SLOTS_START: u32 = 10;

/// The virtio device type id for pmem devices.
pub const TYPE_PMEM: u32 = 27;

/// Number of virtqueues a pmem device drives.
pub const PMEM_NUM_QUEUES: usize = 1;

/// Capacity of the single flush virtqueue.
pub const PMEM_QUEUE_SIZE: u16 = 256;

/// Feature bit: the device conforms to virtio 1.0.
pub const VIRTIO_F_VERSION_1: u64 = 32;

} // verus!
