use rust_camera::frame::RgbFrame;
use rust_camera::shared_frame::{
    read_header, timestamp_100ns, write_frame, FrameHeader, BYTES, HEADER_BYTES, HEIGHT,
    REGION_BYTES, STRIDE, WIDTH,
};
use rust_camera::virtual_camera::{
    MappedView, PublishEvent, PublishStep, RegisterError, RegisterEvent, RegisterStep,
    TransportError, TransportEvent, TransportStep, VirtualPublisher, LIBRARY_FILE, MAPPING, MUTEX,
    REGISTER_SYMBOL,
};

fn ready() -> VirtualPublisher {
    VirtualPublisher {
        mapping: Some(MappedView { handle: 7, base: 4096 }),
        mutex: Some(9),
        library: false,
    }
}

#[test]
fn region_holds_header_and_frame() {
    assert_eq!(BYTES, (WIDTH as usize) * (HEIGHT as usize) * 4);
    assert_eq!(REGION_BYTES, HEADER_BYTES + BYTES);
    assert_eq!(STRIDE, WIDTH * 4);
}

#[test]
fn published_pixels_are_read_back() {
    let mut pixels = vec![0u8; (WIDTH * HEIGHT * 3) as usize];
    for (i, byte) in pixels.iter_mut().enumerate() {
        *byte = (i % 251) as u8;
    }
    let expected = pixels.clone();
    let image = RgbFrame::from_raw(WIDTH, HEIGHT, pixels).unwrap();
    let mut region = vec![0u8; REGION_BYTES];
    write_frame(&mut region, &image, 77);
    assert_eq!(
        read_header(&region),
        FrameHeader { sequence: 1, timestamp100ns: 77, width: 1280, height: 720, stride: 5120 }
    );
    for (x, y) in [(0usize, 0usize), (1279, 0), (0, 719), (1279, 719), (321, 123)] {
        let at = HEADER_BYTES + STRIDE as usize * y + 4 * x;
        let from = 3 * (y * 1280 + x);
        assert_eq!(
            &region[at..at + 4],
            &[expected[from + 2], expected[from + 1], expected[from], 255]
        );
    }
}

#[test]
fn published_frames_are_scaled() {
    let image = RgbFrame::from_raw(2, 2, vec![10, 20, 30, 10, 20, 30, 10, 20, 30, 10, 20, 30]);
    let mut region = vec![0u8; REGION_BYTES];
    write_frame(&mut region, &image.unwrap(), 1);
    assert!(region[HEADER_BYTES..].chunks_exact(4).all(|p| p == [30, 20, 10, 255]));
}

#[test]
fn each_frame_has_the_next_number() {
    let image = RgbFrame::from_raw(1, 1, vec![0, 0, 0]).unwrap();
    let mut region = vec![0u8; REGION_BYTES];
    region[28..32].copy_from_slice(&[1, 2, 3, 4]);
    write_frame(&mut region, &image, 5);
    write_frame(&mut region, &image, 6);
    assert_eq!(read_header(&region).sequence, 2);
    assert_eq!(read_header(&region).timestamp100ns, 6);
    assert_eq!(&region[28..32], &[1, 2, 3, 4]);
    region[0..8].copy_from_slice(&u64::MAX.to_le_bytes());
    write_frame(&mut region, &image, 7);
    assert_eq!(read_header(&region).sequence, 0);
}

#[test]
fn header_is_little_endian() {
    let mut region = vec![0u8; REGION_BYTES];
    region[0..8].copy_from_slice(&0x0102_0304_0506_0708u64.to_le_bytes());
    region[8..16].copy_from_slice(&0xF1F2_F3F4_F5F6_F7F8u64.to_le_bytes());
    region[16..20].copy_from_slice(&0xA1B2_C3D4u32.to_le_bytes());
    assert_eq!(
        read_header(&region),
        FrameHeader {
            sequence: 0x0102_0304_0506_0708,
            timestamp100ns: 0xF1F2_F3F4_F5F6_F7F8,
            width: 0xA1B2_C3D4,
            height: 0,
            stride: 0,
        }
    );
}

#[test]
fn timestamps_count_tenths_of_microseconds() {
    assert_eq!(timestamp_100ns(0), 0);
    assert_eq!(timestamp_100ns(1_700_000_000_123_456), 17_000_000_001_234_560);
    assert_eq!(timestamp_100ns((1u128 << 64) + 3), 30);
}

#[test]
fn transport_is_set_up_from_nothing() {
    let mut p = VirtualPublisher::new();
    assert_eq!(
        p.ensure_transport(TransportEvent::Started { locked: true }),
        TransportStep::CreateMapping { size: 3_686_432 }
    );
    assert_eq!(
        p.ensure_transport(TransportEvent::MappingCreated { handle: 7, os_error: String::new() }),
        TransportStep::MapView { handle: 7, size: REGION_BYTES }
    );
    assert_eq!(
        p.ensure_transport(TransportEvent::ViewMapped { handle: 7, base: 4096 }),
        TransportStep::ClearView { handle: 7, base: 4096, size: REGION_BYTES }
    );
    assert_eq!(
        p.ensure_transport(TransportEvent::ViewCleared { handle: 7, base: 4096 }),
        TransportStep::LockMutexSlot
    );
    assert_eq!(
        p.ensure_transport(TransportEvent::MutexSlotLocked { locked: true }),
        TransportStep::CreateMutex
    );
    assert_eq!(
        p.ensure_transport(TransportEvent::MutexCreated { handle: 9, os_error: String::new() }),
        TransportStep::Finish(Ok(()))
    );
    assert_eq!(p, ready());
    assert_eq!(
        p.ensure_transport(TransportEvent::Started { locked: true }),
        TransportStep::Finish(Ok(()))
    );
}

#[test]
fn transport_reports_each_failure() {
    let mut p = VirtualPublisher::new();
    assert_eq!(
        p.ensure_transport(TransportEvent::Started { locked: false }),
        TransportStep::Finish(Err(TransportError::MappingLock))
    );
    assert_eq!(
        p.ensure_transport(TransportEvent::MappingCreated {
            handle: 0,
            os_error: "denied".to_owned()
        }),
        TransportStep::Finish(Err(TransportError::CreateMapping("denied".to_owned())))
    );
    assert_eq!(
        p.ensure_transport(TransportEvent::ViewMapped { handle: 7, base: 0 }),
        TransportStep::Abandon { handle: 7, error: TransportError::MapView }
    );
    assert_eq!(p, VirtualPublisher::new());
    assert_eq!(
        p.ensure_transport(TransportEvent::MutexSlotLocked { locked: false }),
        TransportStep::Finish(Err(TransportError::MutexLock))
    );
    assert_eq!(
        p.ensure_transport(TransportEvent::MutexCreated {
            handle: 0,
            os_error: "taken".to_owned()
        }),
        TransportStep::Finish(Err(TransportError::CreateMutex("taken".to_owned())))
    );
}

#[test]
fn transport_errors_say_what_happened() {
    assert_eq!(TransportError::MappingLock.message(), "Virtual-camera mapping lock failed.");
    assert_eq!(
        TransportError::CreateMapping("denied".to_owned()).message(),
        "Could not create virtual-camera frame mapping: denied."
    );
    assert_eq!(TransportError::MapView.message(), "Could not map virtual-camera frame buffer.");
    assert_eq!(TransportError::MutexLock.message(), "Virtual-camera mutex lock failed.");
    assert_eq!(
        TransportError::CreateMutex("taken".to_owned()).message(),
        "Could not create virtual-camera mutex: taken."
    );
}

#[test]
fn publishing_waits_writes_and_releases() {
    let p = ready();
    assert_eq!(
        p.publish(PublishEvent::Ready { transport: true, locked: true }),
        PublishStep::Wait { mutex: 9, milliseconds: 5 }
    );
    assert_eq!(
        p.publish(PublishEvent::Waited { mutex: 9, code: 0, locked: true }),
        PublishStep::Write { mutex: 9, base: 4096 }
    );
    assert_eq!(
        p.publish(PublishEvent::Written { mutex: 9 }),
        PublishStep::Release { mutex: 9 }
    );
}

#[test]
fn publishing_skips_what_cannot_be_written() {
    let p = ready();
    assert_eq!(
        p.publish(PublishEvent::Ready { transport: false, locked: true }),
        PublishStep::Skip
    );
    assert_eq!(
        p.publish(PublishEvent::Ready { transport: true, locked: false }),
        PublishStep::Skip
    );
    assert_eq!(
        p.publish(PublishEvent::Waited { mutex: 9, code: 258, locked: true }),
        PublishStep::Skip
    );
    assert_eq!(
        p.publish(PublishEvent::Waited { mutex: 9, code: 0, locked: false }),
        PublishStep::Release { mutex: 9 }
    );
    let unmapped = VirtualPublisher { mapping: None, ..ready() };
    assert_eq!(
        unmapped.publish(PublishEvent::Waited { mutex: 9, code: 0, locked: true }),
        PublishStep::Release { mutex: 9 }
    );
}

#[test]
fn without_a_mutex_no_frame_is_published() {
    let mut p = VirtualPublisher { mutex: None, ..ready() };
    assert_eq!(
        p.ensure_transport(TransportEvent::Started { locked: true }),
        TransportStep::Finish(Ok(()))
    );
    assert_eq!(
        p.publish(PublishEvent::Ready { transport: true, locked: true }),
        PublishStep::Skip
    );
}

#[test]
fn registration_keeps_the_component_when_it_succeeds() {
    let mut p = ready();
    assert_eq!(p.register(RegisterEvent::TransportSet(Ok(()))), RegisterStep::LocateExecutable);
    assert_eq!(p.register(RegisterEvent::Located(Ok(()))), RegisterStep::LoadLibrary);
    assert_eq!(
        p.register(RegisterEvent::Loaded { path: "x.dll".to_owned(), outcome: Ok(()) }),
        RegisterStep::FindSymbol
    );
    assert_eq!(p.register(RegisterEvent::SymbolFound(Ok(()))), RegisterStep::CallRegister);
    assert_eq!(p.register(RegisterEvent::Called { hr: 0 }), RegisterStep::LockLibrarySlot);
    assert!(!p.library);
    assert_eq!(
        p.register(RegisterEvent::LibrarySlotLocked { locked: true }),
        RegisterStep::Finish(Ok(()))
    );
    assert!(p.library);
}

#[test]
fn registration_reports_each_failure() {
    let mut p = ready();
    let failures = [
        (
            RegisterEvent::TransportSet(Err(TransportError::MapView)),
            RegisterError::Transport(TransportError::MapView),
        ),
        (
            RegisterEvent::Located(Err("gone".to_owned())),
            RegisterError::Executable("gone".to_owned()),
        ),
        (
            RegisterEvent::Loaded { path: "x.dll".to_owned(), outcome: Err("no".to_owned()) },
            RegisterError::Library { path: "x.dll".to_owned(), error: "no".to_owned() },
        ),
        (
            RegisterEvent::SymbolFound(Err("none".to_owned())),
            RegisterError::Symbol("none".to_owned()),
        ),
        (RegisterEvent::Called { hr: -1 }, RegisterError::Failed(-1)),
        (RegisterEvent::LibrarySlotLocked { locked: false }, RegisterError::LibraryLock),
    ];
    for (event, error) in failures {
        assert_eq!(p.register(event), RegisterStep::Finish(Err(error)));
        assert_eq!(p, ready());
    }
}

#[test]
fn registration_errors_say_what_happened() {
    assert_eq!(
        RegisterError::Transport(TransportError::MapView).message(),
        "Could not map virtual-camera frame buffer."
    );
    assert_eq!(
        RegisterError::Executable("gone".to_owned()).message(),
        "Could not locate application: gone"
    );
    assert_eq!(
        RegisterError::Library { path: "C:\\x.dll".to_owned(), error: "no".to_owned() }.message(),
        "Virtual-camera DLL not found at C:\\x.dll. Build \
         virtual-camera/VirtualCameraMediaSource.vcxproj first. no"
    );
    assert_eq!(
        RegisterError::Symbol("none".to_owned()).message(),
        "Virtual-camera DLL is missing Register4KRustVirtualCamera: none"
    );
    assert_eq!(
        RegisterError::Failed(-2_147_024_891).message(),
        "Media Foundation virtual-camera registration failed (HRESULT 0x80070005)."
    );
    assert_eq!(
        RegisterError::Failed(-1).message(),
        "Media Foundation virtual-camera registration failed (HRESULT 0xFFFFFFFF)."
    );
    assert_eq!(RegisterError::LibraryLock.message(), "Virtual-camera DLL lock failed.");
}

#[test]
fn names_for_the_system_end_with_zero() {
    assert_eq!(VirtualPublisher::wide("A—"), vec![65, 0x2014, 0]);
}

#[test]
fn names_are_those_that_the_component_knows() {
    assert_eq!(MAPPING, r"Local\4KRustCameraFrameRing");
    assert_eq!(MUTEX, r"Local\4KRustCameraFrameRingMutex");
    assert_eq!(LIBRARY_FILE, "4KRustCameraVirtualCamera.dll");
    assert_eq!(REGISTER_SYMBOL, "Register4KRustVirtualCamera");
    let missing = RegisterError::Symbol("none".to_owned()).message();
    assert!(missing.contains(&format!(" {REGISTER_SYMBOL}: ")));
}

#[test]
fn nothing_of_an_older_frame_remains() {
    let old = RgbFrame::from_raw(3, 1, vec![200; 9]).unwrap();
    let new = RgbFrame::from_raw(1, 2, vec![1, 2, 3, 4, 5, 6]).unwrap();
    let mut both = vec![0u8; REGION_BYTES];
    write_frame(&mut both, &old, 5);
    write_frame(&mut both, &new, 6);
    let mut alone = vec![0u8; REGION_BYTES];
    write_frame(&mut alone, &new, 6);
    assert_eq!(read_header(&both).sequence, 2);
    assert_eq!(read_header(&alone).sequence, 1);
    assert!(both[8..] == alone[8..]);
}
