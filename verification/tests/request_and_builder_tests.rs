use virtio_pmem::{
    parse_put_pmem, MemPageState, PageRange, PmemBuilder, PmemDeviceConfig, RequestError,
    StatusCode, UffdEvent, UffdHandlerState, UffdReply, VmmAction,
};

fn body(drive_id: &str) -> PmemDeviceConfig {
    PmemDeviceConfig {
        drive_id: drive_id.to_string(),
        path_on_host: "/tmp/disk.img".to_string(),
        is_root_device: false,
        shared: false,
    }
}

#[test]
fn control_plane_id_mismatch() {
    let id = "foo".to_string();
    let err = parse_put_pmem(Some(&id), Some(body("bar"))).expect_err("id mismatch");
    match err {
        RequestError::Generic(code, msg) => {
            assert!(matches!(code, StatusCode::BadRequest));
            assert_eq!(msg, "The id from the path does not match the id from the body!");
        }
        other => panic!("wrong rejection: {other:?}"),
    }
}

#[test]
fn control_plane_missing_id() {
    assert!(matches!(
        parse_put_pmem(None, Some(body("foo"))),
        Err(RequestError::EmptyID)
    ));
    let empty = String::new();
    assert!(matches!(
        parse_put_pmem(Some(&empty), Some(body("foo"))),
        Err(RequestError::EmptyID)
    ));
}

#[test]
fn control_plane_undecodable_body() {
    let id = "foo".to_string();
    assert!(matches!(
        parse_put_pmem(Some(&id), None),
        Err(RequestError::Deserialize)
    ));
}

#[test]
fn control_plane_accepts_matching_ids() {
    let id = "foo".to_string();
    let parsed = parse_put_pmem(Some(&id), Some(body("foo"))).expect("accepted");
    let VmmAction::InsertPmemDevice(cfg) = parsed.action;
    assert_eq!(cfg.drive_id, "foo");
    assert_eq!(cfg.path_on_host, "/tmp/disk.img");
}

#[test]
fn builder_builds_and_lists_devices() {
    let mut b = PmemBuilder::new();
    assert!(b.devices.is_empty());
    b.build(body("d0"), 4096, 0x1000_0000).expect("build");
    b.build(
        PmemDeviceConfig {
            drive_id: "d1".to_string(),
            path_on_host: "/tmp/other.img".to_string(),
            is_root_device: true,
            shared: true,
        },
        8192,
        0x2000_0000,
    )
    .expect("build");
    assert_eq!(b.devices.len(), 2);
    assert_eq!(b.devices[1].root_device, true);
    assert_eq!(b.devices[1].config_space.size, 2 * 1024 * 1024);

    let configs = b.configs();
    assert_eq!(configs.len(), 2);
    assert_eq!(configs[0].drive_id, "d0");
    assert_eq!(configs[0].path_on_host, "/tmp/disk.img");
    assert_eq!(configs[1].drive_id, "d1");
    assert_eq!(configs[1].path_on_host, "/tmp/other.img");
    // The running device reports the root flag as false even for d1.
    assert!(!configs[1].is_root_device);
    assert!(configs[1].shared);
}

#[test]
fn builder_add_device_appends() {
    let mut b = PmemBuilder::new();
    b.build(body("d2"), 4096, 0x1000_0000).expect("build");
    let dev = virtio_pmem::Pmem::new(
        "d3".to_string(),
        "/tmp/d3.img".to_string(),
        false,
        false,
        4096,
        0x3000_0000,
    )
    .expect("device");
    b.add_device(dev);
    assert_eq!(b.devices.len(), 2);
    assert_eq!(b.devices[1].id(), "d3");
}

#[test]
fn uffd_handler_counts_pages() {
    let page = 4096u64;
    let mut h = UffdHandlerState::new(
        page,
        vec![PageRange { start: 0, end: 3 * page, state: MemPageState::Uninitialized }],
    );
    for i in 0..3u64 {
        let r = h.on_event(UffdEvent::Pagefault { addr: i * page });
        match r {
            UffdReply::ServePage { addr, len } => {
                assert_eq!(addr, i * page);
                assert_eq!(len, page);
            }
            other => panic!("wrong reply: {other:?}"),
        }
        assert_eq!(h.pages_served, i + 1);
    }
    assert_eq!(h.pages_served, 3);
}

#[test]
fn uffd_handler_marks_removed_ranges() {
    let page = 4096u64;
    let mut h = UffdHandlerState::new(
        page,
        vec![
            PageRange { start: 0, end: page, state: MemPageState::FromFile },
            PageRange { start: page, end: 2 * page, state: MemPageState::FromFile },
            PageRange { start: 2 * page, end: 3 * page, state: MemPageState::FromFile },
        ],
    );
    let r = h.on_event(UffdEvent::Remove { start: page, end: 2 * page });
    assert!(matches!(r, UffdReply::Updated));
    assert_eq!(h.ranges[0].state, MemPageState::FromFile);
    assert_eq!(h.ranges[1].state, MemPageState::Removed);
    assert_eq!(h.ranges[2].state, MemPageState::FromFile);
    assert_eq!(h.pages_served, 0);
}

#[test]
fn uffd_handler_aborts_on_unexpected_event() {
    let mut h = UffdHandlerState::new(4096, Vec::new());
    assert!(matches!(h.on_event(UffdEvent::Unsupported), UffdReply::Abort));
    assert_eq!(h.pages_served, 0);
}
