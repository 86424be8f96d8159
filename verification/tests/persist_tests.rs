use virtio_pmem::{
    DescChain, Descriptor, GuestMem, Pmem, PmemError, PmemPersistError, VirtQueue,
    VirtioStateError,
};

fn device_with_placement() -> Pmem {
    let mut queues: Vec<VirtQueue> = vec![VirtQueue::new(256)];
    queues[0].desc_table = 0x1000;
    queues[0].avail_ring = 0x2000;
    queues[0].used_ring = 0x3000;
    Pmem::new_with_queues(
        queues,
        "snap0".to_string(),
        "/tmp/snap0.img".to_string(),
        true,
        11,
        0x4000_0000,
        true,
        4096,
        0xbeef_0000,
    )
    .expect("eventfd creation")
}

#[test]
fn save_captures_the_device() {
    let dev = device_with_placement();
    let s = dev.save();
    assert_eq!(s.drive_id, "snap0");
    assert!(s.root_device);
    assert_eq!(s.backing_file_path, "/tmp/snap0.img");
    assert_eq!(s.guest_address, 0x4000_0000);
    assert_eq!(s.mem_slot, 11);
    assert!(s.shared);
    assert_eq!(s.virtio_state.device_type, 27);
    assert_eq!(s.virtio_state.avail_features, 1u64 << 32);
    assert_eq!(s.virtio_state.acked_features, 0);
    assert_eq!(s.virtio_state.interrupt_status, 0);
    assert!(!s.virtio_state.activated);
    assert_eq!(s.virtio_state.queues.len(), 1);
    assert_eq!(s.virtio_state.queues[0].size, 256);
    assert_eq!(s.virtio_state.queues[0].desc_table, 0x1000);
    assert_eq!(s.virtio_state.queues[0].avail_ring, 0x2000);
    assert_eq!(s.virtio_state.queues[0].used_ring, 0x3000);
}

#[test]
fn restore_reproduces_mapping() {
    let mut dev = device_with_placement();
    dev.set_acked_features(1u64 << 32);
    dev.activate(GuestMem { bytes: vec![0u8; 0x8000] })
        .expect("activation");

    let mut before = vec![0u8; 16];
    dev.read_config(0, &mut before);
    let desc_table_before = dev.queues()[0].desc_table;

    let state = dev.save();
    drop(dev);

    // A fresh guest memory and a fresh mapping address: both are legal.
    let restored = Pmem::restore(&state, GuestMem { bytes: vec![0u8; 0x8000] }, 4096, 0x7777_0000)
        .expect("restore");

    let mut after = vec![0u8; 16];
    restored.read_config(0, &mut after);
    assert_eq!(before, after);
    assert_eq!(restored.queues()[0].desc_table, desc_table_before);
    assert_eq!(restored.queues()[0].avail_ring, 0x2000);
    assert_eq!(restored.queues()[0].used_ring, 0x3000);
    assert_eq!(restored.id(), "snap0");
    assert_eq!(restored.mem_slot, 11);
    assert!(restored.shared);
    assert!(restored.root_device);
    assert_eq!(restored.avail_features(), 1u64 << 32);
    assert_eq!(restored.acked_features(), 1u64 << 32);
    // The device comes back activated without a second activation signal.
    assert!(restored.is_activated());
    assert_eq!(restored.mmaped_file, 0x7777_0000);

    let region = restored.mem_region();
    assert_eq!(region.slot, 11);
    assert_eq!(region.guest_phys_addr, 0x4000_0000);
    assert_eq!(region.memory_size, 2 * 1024 * 1024);
    assert_eq!(region.userspace_addr, 0x7777_0000);
}

#[test]
fn restore_advertises_saved_size_when_file_grew() {
    let dev = device_with_placement();
    let state = dev.save();
    assert_eq!(state.mapping_size, 2 * 1024 * 1024);
    // The backing file meanwhile grew past the saved mapping: the extra
    // bytes are ignored and the guest keeps seeing the saved size.
    let grown = 2 * 1024 * 1024 + 4096;
    let restored = Pmem::restore(&state, GuestMem { bytes: vec![0u8; 0x8000] }, grown, 0x7777_0000)
        .expect("restore");
    assert_eq!(restored.config_space.size, 2 * 1024 * 1024);
    assert_eq!(restored.backing_file_size, grown);
    let mut cfg = vec![0u8; 8];
    restored.read_config(8, &mut cfg);
    assert_eq!(&cfg[..], &[0x00, 0x00, 0x20, 0x00, 0x00, 0x00, 0x00, 0x00]);
}

#[test]
fn restore_advertises_saved_size_when_file_shrank() {
    let dev = device_with_placement();
    let state = dev.save();
    // A shorter file is permitted: reads past its end come from the zeroed
    // tail, and the advertised size stays the saved one.
    let restored = Pmem::restore(&state, GuestMem { bytes: vec![0u8; 0x8000] }, 1000, 0x7777_0000)
        .expect("restore");
    assert_eq!(restored.config_space.size, 2 * 1024 * 1024);
    assert_eq!(restored.backing_file_size, 1000);
}

#[test]
fn restore_rejects_wrong_queue_size() {
    let dev = device_with_placement();
    let mut state = dev.save();
    state.virtio_state.queues[0].size = 128;
    let err = Pmem::restore(&state, GuestMem { bytes: vec![0u8; 0x8000] }, 4096, 0x7777_0000)
        .expect_err("queue size mismatch");
    assert!(matches!(
        err,
        PmemPersistError::VirtioState(VirtioStateError::InvalidQueueSize)
    ));
}

#[test]
fn restore_rejects_wrong_device_type() {
    let dev = device_with_placement();
    let mut state = dev.save();
    state.virtio_state.device_type = 2;
    let err = Pmem::restore(&state, GuestMem { bytes: vec![0u8; 0x8000] }, 4096, 0x7777_0000)
        .expect_err("device type mismatch");
    assert!(matches!(
        err,
        PmemPersistError::VirtioState(VirtioStateError::InvalidDeviceType)
    ));
}

#[test]
fn restore_rejects_rings_outside_memory() {
    let dev = device_with_placement();
    let state = dev.save();
    // The saved rings sit near 0x3000; 0x1000 bytes of memory cannot hold them.
    let err = Pmem::restore(&state, GuestMem { bytes: vec![0u8; 0x1000] }, 4096, 0x7777_0000)
        .expect_err("rings out of memory");
    assert!(matches!(
        err,
        PmemPersistError::VirtioState(VirtioStateError::InvalidQueueMemory)
    ));
}

#[test]
fn restore_rejects_misaligned_guest_address() {
    let dev = device_with_placement();
    let mut state = dev.save();
    state.guest_address = 0x4000_0800;
    let err = Pmem::restore(&state, GuestMem { bytes: vec![0u8; 0x8000] }, 4096, 0x7777_0000)
        .expect_err("misaligned guest address");
    assert!(matches!(
        err,
        PmemPersistError::Pmem(PmemError::UnalignedGuestAddress)
    ));
}

#[test]
fn restore_of_inactive_device_stays_inactive() {
    let dev = device_with_placement();
    let state = dev.save();
    let restored = Pmem::restore(&state, GuestMem { bytes: vec![0u8; 0x8000] }, 4096, 0x1234_0000)
        .expect("restore");
    assert!(!restored.is_activated());
}

#[test]
fn restored_device_services_requests() {
    let mut dev = device_with_placement();
    dev.activate(GuestMem { bytes: vec![0u8; 0x8000] })
        .expect("activation");
    let state = dev.save();
    drop(dev);

    let mut restored =
        Pmem::restore(&state, GuestMem { bytes: vec![0u8; 0x8000] }, 4096, 0x7777_0000)
            .expect("restore");
    restored.queues_mut()[0].pending.push(DescChain {
        index: 7,
        descs: vec![
            Descriptor { addr: 0x4000, len: 8, writable: false },
            Descriptor { addr: 0x4100, len: 4, writable: true },
        ],
    });
    restored.queue_events()[0].write(1).expect("kick");
    restored.process_queue();
    assert_eq!(restored.queues()[0].used, vec![(7u16, 4u32)]);
    assert_eq!(restored.queues()[0].used_idx, 1);
}
