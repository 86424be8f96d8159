//! Configuration records for pmem devices and the builder that owns the
//! devices of a VM.

use vstd::prelude::*;

use crate::device::{fresh_device_common, fresh_queue, Pmem, PmemError};
use crate::{ALIGNMENT, PMEM_QUEUE_SIZE};

verus! {

/// Errors associated with the operations allowed on a pmem device.
#[derive(Debug)]
pub enum PmemConfigError {
    /// Unable to create the virtio-pmem device.
    CreatePmemDevice(PmemError),
    /// Error accessing the underlying file.
    File(std::io::Error),
}

/// A pmem device as the control plane describes it before boot.
#[derive(Debug)]
pub struct PmemDeviceConfig {
    /// Unique identifier of the device.
    pub drive_id: String,
    /// Path of the backing file on the host.
    pub path_on_host: String,
    /// Whether the guest should boot from this device.
    pub is_root_device: bool,
    /// Whether guest writes reach the backing file.
    pub shared: bool,
}

/// A partial update: only the provided fields change.
#[derive(Debug)]
pub struct PmemDeviceUpdateConfig {
    /// The drive id, as provided at creation time.
    pub drive_id: String,
    /// A new backing file path, if one is given.
    pub path_on_host: Option<String>,
}

/// The collection of pmem devices of one VM, in creation order.
pub struct PmemBuilder {
    /// The devices, in the order they were added.
    pub devices: Vec<Pmem>,
}

impl PmemBuilder {
    /// An empty collection.
    pub fn new() -> (b: PmemBuilder)
        ensures
            b.devices@.len() == 0,
    {
        PmemBuilder { devices: Vec::new() }
    }

    /// Build a device from a validated configuration record and append it.
    /// The caller has opened, measured, and mapped the backing file already:
    /// `backing_file_size` is its length, `host_mapping_addr` the mapping.
    pub fn build(
        &mut self,
        config: PmemDeviceConfig,
        backing_file_size: u64,
        host_mapping_addr: u64,
    ) -> (r: Result<(), PmemConfigError>)
        requires
            backing_file_size + ALIGNMENT - 1 <= u64::MAX,
            host_mapping_addr != 0,
        ensures
            r is Ok ==> ({
                &&& final(self).devices@.len() == old(self).devices@.len() + 1
                &&& final(self).devices@.subrange(0, old(self).devices@.len() as int)
                    == old(self).devices@
                &&& fresh_device_common(
                    final(self).devices@.last(),
                    config.drive_id,
                    config.path_on_host,
                    config.is_root_device,
                    config.shared,
                    backing_file_size,
                    host_mapping_addr,
                )
                &&& final(self).devices@.last().config_space.start == 0
                &&& final(self).devices@.last().mem_slot == 0
                &&& final(self).devices@.last().queues@.len() == 1
                &&& fresh_queue(final(self).devices@.last().queues@[0], PMEM_QUEUE_SIZE)
            }),
            r matches Err(e) ==> final(self).devices@ == old(self).devices@ && (
            e matches PmemConfigError::CreatePmemDevice(p) && p is EventFd),
    {
        let pmem = match Pmem::new(
            config.drive_id,
            config.path_on_host,
            config.is_root_device,
            config.shared,
            backing_file_size,
            host_mapping_addr,
        ) {
            Ok(p) => p,
            Err(e) => {
                return Err(PmemConfigError::CreatePmemDevice(e));
            },
        };
        self.devices.push(pmem);
        proof {
            assert(final(self).devices@.subrange(0, old(self).devices@.len() as int)
                =~= old(self).devices@);
        }
        Ok(())
    }

    /// Append an existing device.
    pub fn add_device(&mut self, device: Pmem)
        ensures
            final(self).devices@ == old(self).devices@.push(device),
    {
        self.devices.push(device);
    }

    /// The user-facing configuration records of all devices, in order.
    pub fn configs(&self) -> (r: Vec<PmemDeviceConfig>)
        ensures
            r@.len() == self.devices@.len(),
            forall|i: int|
                0 <= i < r@.len() ==> {
                    &&& (#[trigger] r@[i]).drive_id@ == self.devices@[i].drive_id@
                    &&& r@[i].path_on_host@ == self.devices@[i].backing_file_path@
                    &&& r@[i].is_root_device == false
                    &&& r@[i].shared == self.devices@[i].shared
                },
    {
        let mut r: Vec<PmemDeviceConfig> = Vec::new();
        let n = self.devices.len();
        let mut i: usize = 0;
        while i < n
            invariant
                i <= n,
                n == self.devices@.len(),
                r@.len() == i,
                forall|j: int|
                    0 <= j < i ==> {
                        &&& (#[trigger] r@[j]).drive_id@ == self.devices@[j].drive_id@
                        &&& r@[j].path_on_host@ == self.devices@[j].backing_file_path@
                        &&& r@[j].is_root_device == false
                        &&& r@[j].shared == self.devices@[j].shared
                    },
            decreases n - i,
        {
            r.push(self.devices[i].config());
            i = i + 1;
        }
        r
    }
}

} // verus!
