use virtio_pmem::{
    align_up, mapping_contents, ConfigSpace, DescChain, Descriptor, DeviceState, GuestMem, Pmem,
    PmemError, ALIGNMENT,
};

const TWO_MIB: u64 = 2 * 1024 * 1024;

#[test]
fn align_up_rounds_to_two_mib() {
    assert_eq!(align_up(0), 0);
    assert_eq!(align_up(1), TWO_MIB);
    assert_eq!(align_up(4096), TWO_MIB);
    assert_eq!(align_up(TWO_MIB), TWO_MIB);
    assert_eq!(align_up(TWO_MIB + 1), 2 * TWO_MIB);
    assert_eq!(align_up(3 * TWO_MIB - 1), 3 * TWO_MIB);
    assert_eq!(align_up(ALIGNMENT) % ALIGNMENT, 0);
}

#[test]
fn mapping_contents_mirror_file_then_zero() {
    let file = vec![1u8, 2, 3];
    let m = mapping_contents(&file, 8);
    assert_eq!(m.len(), 8);
    assert_eq!(&m[..3], &[1, 2, 3]);
    assert_eq!(&m[3..], &[0, 0, 0, 0, 0]);
}

#[test]
fn guest_mem_reads_mapping_model() {
    // A guest memory laid out like the published mapping: file bytes, zero tail.
    let file = vec![7u8, 8, 9];
    let mem = GuestMem { bytes: mapping_contents(&file, 6) };
    assert_eq!(mem.len(), 6);
    assert_eq!(mem.read_byte(0).unwrap(), 7);
    assert_eq!(mem.read_byte(2).unwrap(), 9);
    assert_eq!(mem.read_byte(3).unwrap(), 0);
    assert_eq!(mem.read_byte(5).unwrap(), 0);
    assert!(mem.read_byte(6).is_err());
}

#[test]
fn config_space_encodes_little_endian() {
    let cs = ConfigSpace { start: 0x1122_3344_5566_7788, size: 0x0020_0000 };
    let b = cs.to_bytes();
    assert_eq!(b.len(), 16);
    assert_eq!(&b[..8], &[0x88, 0x77, 0x66, 0x55, 0x44, 0x33, 0x22, 0x11]);
    assert_eq!(&b[8..], &[0x00, 0x00, 0x20, 0x00, 0x00, 0x00, 0x00, 0x00]);
}

fn new_device(drive_id: &str, size: u64, shared: bool) -> Pmem {
    Pmem::new(
        drive_id.to_string(),
        format!("/tmp/{drive_id}.img"),
        false,
        shared,
        size,
        0xdead_0000,
    )
    .expect("eventfd creation")
}

#[test]
fn create_and_read_config() {
    let mut dev = new_device("pmem0", 4096, false);
    dev.config_space.start = 0x4000_0000;

    let mut buf = vec![0xaau8; 16];
    dev.read_config(0, &mut buf);
    assert_eq!(&buf[..8], &[0x00, 0x00, 0x00, 0x40, 0x00, 0x00, 0x00, 0x00]);
    // 4096 rounds up to one 2 MiB unit: 0x200000.
    assert_eq!(&buf[8..], &[0x00, 0x00, 0x20, 0x00, 0x00, 0x00, 0x00, 0x00]);

    // A window read starting at the size field.
    let mut tail = vec![0u8; 8];
    dev.read_config(8, &mut tail);
    assert_eq!(&tail[..], &[0x00, 0x00, 0x20, 0x00, 0x00, 0x00, 0x00, 0x00]);

    // A short buffer takes only the head of the window.
    let mut short = vec![0u8; 4];
    dev.read_config(0, &mut short);
    assert_eq!(&short[..], &[0x00, 0x00, 0x00, 0x40]);

    // An out-of-range offset writes nothing.
    let mut untouched = vec![0x55u8; 16];
    dev.read_config(17, &mut untouched);
    assert_eq!(untouched, vec![0x55u8; 16]);

    // A read past the window's end copies only what is left.
    let mut edge = vec![0x77u8; 16];
    dev.read_config(12, &mut edge);
    assert_eq!(&edge[..4], &[0x00, 0x00, 0x00, 0x00]);
    assert_eq!(&edge[4..], &[0x77u8; 12]);
}

#[test]
fn write_config_is_ignored() {
    let mut dev = new_device("pmem-w", 4096, false);
    dev.config_space.start = 0x4000_0000;
    dev.write_config(0, &vec![0xffu8; 16]);
    let mut buf = vec![0u8; 8];
    dev.read_config(0, &mut buf);
    assert_eq!(&buf[..], &[0x00, 0x00, 0x00, 0x40, 0x00, 0x00, 0x00, 0x00]);
}

fn flush_chain(index: u16) -> DescChain {
    DescChain {
        index,
        descs: vec![
            Descriptor { addr: 0x1000, len: 8, writable: false },
            Descriptor { addr: 0x1100, len: 4, writable: true },
        ],
    }
}

#[test]
fn flush_request_completes() {
    let mut dev = new_device("pmem1", 4096, false);
    let mem = GuestMem { bytes: vec![0xffu8; 0x2000] };
    dev.activate(mem).expect("activation");
    assert!(dev.is_activated());

    dev.queues_mut()[0].pending.push(flush_chain(0));
    dev.queue_events()[0].write(1).expect("kick");
    dev.process_queue();

    match &dev.device_state {
        DeviceState::Activated(m) => {
            assert_eq!(&m.bytes[0x1100..0x1104], &[0, 0, 0, 0]);
            // Bytes around the status stay untouched.
            assert_eq!(m.bytes[0x10ff], 0xff);
            assert_eq!(m.bytes[0x1104], 0xff);
        }
        DeviceState::Inactive => panic!("device lost its memory"),
    }
    let q = &dev.queues()[0];
    assert_eq!(q.used, vec![(0u16, 4u32)]);
    assert_eq!(q.used_idx, 1);
    assert_eq!(q.next_used, 1);
    assert!(q.pending.is_empty());
    // Notifications were not suppressed: the used-ring interrupt is pending.
    assert_eq!(dev.interrupt_trigger().irq_status & 1, 1);
}

#[test]
fn flush_with_suppressed_notifications_raises_no_irq() {
    let mut dev = new_device("pmem2", 4096, false);
    dev.activate(GuestMem { bytes: vec![0u8; 0x2000] }).expect("activation");
    dev.queues_mut()[0].notification_suppressed = true;
    dev.queues_mut()[0].pending.push(flush_chain(3));
    dev.queue_events()[0].write(1).expect("kick");
    dev.process_queue();

    let q = &dev.queues()[0];
    assert_eq!(q.used, vec![(3u16, 4u32)]);
    assert_eq!(q.used_idx, 1);
    assert_eq!(dev.interrupt_trigger().irq_status, 0);
}

#[test]
fn short_chain_is_dropped() {
    let mut dev = new_device("pmem3", 4096, false);
    dev.activate(GuestMem { bytes: vec![0u8; 0x2000] }).expect("activation");
    dev.queues_mut()[0].pending.push(DescChain {
        index: 0,
        descs: vec![Descriptor { addr: 0x1000, len: 8, writable: false }],
    });
    dev.queue_events()[0].write(1).expect("kick");
    dev.process_queue();

    // The used ring advanced by zero and no interrupt was raised.
    let q = &dev.queues()[0];
    assert_eq!(q.used_idx, 0);
    assert!(q.used.is_empty());
    assert!(q.pending.is_empty());
    assert_eq!(dev.interrupt_trigger().irq_status, 0);

    // The device stays ready for the next request.
    dev.queues_mut()[0].pending.push(flush_chain(1));
    dev.queue_events()[0].write(1).expect("kick");
    dev.process_queue();
    let q = &dev.queues()[0];
    assert_eq!(q.used, vec![(1u16, 4u32)]);
    assert_eq!(q.used_idx, 1);
}

#[test]
fn unkicked_queue_is_not_serviced() {
    let mut dev = new_device("pmem4", 4096, false);
    dev.activate(GuestMem { bytes: vec![0u8; 0x2000] }).expect("activation");
    dev.queues_mut()[0].pending.push(flush_chain(0));
    // No kick was written: the nonblocking drain fails and nothing happens.
    dev.process_queue();
    let q = &dev.queues()[0];
    assert_eq!(q.pending.len(), 1);
    assert_eq!(q.used_idx, 0);
}

#[test]
fn handle_queue_reports_bad_head_index() {
    let mut dev = new_device("pmem5", 4096, false);
    dev.activate(GuestMem { bytes: vec![0u8; 0x2000] }).expect("activation");
    // 256 is the queue capacity, so a head index of 256 is out of bounds.
    dev.queues_mut()[0].pending.push(flush_chain(256));
    let err = dev.handle_queue().expect_err("bad head index");
    assert!(matches!(err, PmemError::Queue(_)));
    assert_eq!(dev.queues()[0].used_idx, 0);
}

#[test]
fn handle_queue_reports_status_write_fault() {
    let mut dev = new_device("pmem6", 4096, false);
    dev.activate(GuestMem { bytes: vec![0u8; 0x2000] }).expect("activation");
    dev.queues_mut()[0].pending.push(DescChain {
        index: 0,
        descs: vec![
            Descriptor { addr: 0x1000, len: 8, writable: false },
            // The status slot lies beyond the 0x2000-byte guest memory.
            Descriptor { addr: 0x3000, len: 4, writable: true },
        ],
    });
    let err = dev.handle_queue().expect_err("status write fault");
    assert!(matches!(err, PmemError::GuestMemory(_)));
    assert_eq!(dev.queues()[0].used_idx, 0);
}

#[test]
fn device_reports_transport_facts() {
    let mut dev = new_device("pmem7", 4096, true);
    assert_eq!(dev.device_type(), 27);
    assert_eq!(dev.avail_features(), 1u64 << 32);
    assert_eq!(dev.acked_features(), 0);
    dev.set_acked_features(1u64 << 32);
    assert_eq!(dev.acked_features(), 1u64 << 32);
    assert_eq!(dev.id(), "pmem7");
    assert_eq!(dev.queues().len(), 1);
    assert_eq!(dev.queues()[0].size, 256);
    assert!(!dev.is_activated());

    let cfg = dev.config();
    assert_eq!(cfg.drive_id, "pmem7");
    assert_eq!(cfg.path_on_host, "/tmp/pmem7.img");
    // The running device always reports the root flag as false.
    assert!(!cfg.is_root_device);
    assert!(cfg.shared);

    let region = dev.mem_region();
    assert_eq!(region.slot, 0);
    assert_eq!(region.guest_phys_addr, 0);
    assert_eq!(region.memory_size, TWO_MIB);
    assert_eq!(region.userspace_addr, 0xdead_0000);
    assert_eq!(region.flags, 0);
}

#[test]
fn activation_rejects_rings_outside_memory() {
    let mut dev = new_device("pmem8", 4096, false);
    dev.queues_mut()[0].desc_table = 0x10_0000;
    // 16 bytes per descriptor times 256 entries does not fit in 0x2000 bytes.
    let err = dev
        .activate(GuestMem { bytes: vec![0u8; 0x2000] })
        .expect_err("rings out of bounds");
    assert!(matches!(err, virtio_pmem::ActivateError::QueueMemoryError(_)));
    assert!(!dev.is_activated());
}
