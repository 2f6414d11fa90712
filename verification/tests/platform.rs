use keyrx_daemon::platform::linux::input_capture::key_events_from_batch;
use keyrx_daemon::platform::windows::events::{device_change, raw_input_size_ok, DeviceChange};
use keyrx_daemon::platform::linux::input_capture::{grab_failure, open_failure, read_failure};
use keyrx_daemon::platform::linux::output_injection::InjectionState;
use std::time::{Duration, SystemTime, UNIX_EPOCH};

use keyrx_daemon::keys::{KeyCode, KeyEvent};
use keyrx_daemon::platform::common::PlatformError;
use keyrx_daemon::platform::linux::input_capture::{key_event_from_evdev, systemtime_to_micros, truncate_micros};
use keyrx_daemon::platform::linux::input_capture::{timed_key_event_from_evdev, TimedKeyEvent};
use keyrx_daemon::platform::linux::HeldKeys;
use keyrx_daemon::platform::windows::device_map::{DeviceInfo as RawDeviceInfo, DeviceMap};
use keyrx_daemon::platform::windows::events::{
    decode_raw_keyboard, hook_event, injection_input, RawKey, DAEMON_OUTPUT_MARKER,
    TEST_SIMULATED_PHYSICAL_MARKER,
};
use keyrx_daemon::platform::windows::{convert_device_info, parse_vid_pid};
use keyrx_daemon::platform::{
    is_reportable_device_error, tray_event_outcome, DeviceError, DeviceInfo, ProcessResult,
    TrayControlEvent, TrayError,
};

#[test]
fn test_device_info_equality() {
    let device1 = DeviceInfo {
        id: "kbd-0".to_string(),
        name: "Keyboard".to_string(),
        path: "/dev/input/event0".to_string(),
        vendor_id: 0x1234,
        product_id: 0x5678,
    };

    let device2 = DeviceInfo {
        id: "kbd-0".to_string(),
        name: "Keyboard".to_string(),
        path: "/dev/input/event0".to_string(),
        vendor_id: 0x1234,
        product_id: 0x5678,
    };

    assert_eq!(device1, device2);
}

#[test]
fn device_error_texts() {
    assert_eq!(DeviceError::NotFound("x".into()).to_string(), "device not found: x");
    assert_eq!(DeviceError::PermissionDenied("p".into()).to_string(), "permission denied: p");
    assert_eq!(DeviceError::EndOfStream.to_string(), "end of stream");
    assert_eq!(DeviceError::InjectionFailed("i".into()).to_string(), "event injection failed: i");
    let io = DeviceError::from(std::io::Error::new(std::io::ErrorKind::Other, "boom"));
    assert_eq!(io.to_string(), "I/O error: boom");
    assert_eq!(TrayError::NotAvailable("n".into()).to_string(), "system tray not available: n");
    assert_eq!(PlatformError::Poisoned("m".into()).to_string(), "Mutex poisoned: m");
}

#[test]
fn tray_events_decide_the_loop() {
    assert_eq!(tray_event_outcome(Some(TrayControlEvent::Reload)), Some(ProcessResult::ReloadRequested));
    assert_eq!(tray_event_outcome(Some(TrayControlEvent::Exit)), Some(ProcessResult::ExitRequested));
    assert_eq!(tray_event_outcome(Some(TrayControlEvent::OpenWebUI)), None);
    assert_eq!(tray_event_outcome(None), None);
    assert!(!is_reportable_device_error(&DeviceError::EndOfStream));
    assert!(is_reportable_device_error(&DeviceError::NotFound("x".into())));
}

#[test]
fn test_systemtime_to_micros_valid() {
    let time = UNIX_EPOCH + Duration::from_secs(1);
    let micros = systemtime_to_micros(time);
    assert_eq!(micros, 1_000_000);

    let time = UNIX_EPOCH + Duration::from_micros(1_500_000);
    let micros = systemtime_to_micros(time);
    assert_eq!(micros, 1_500_000);
}

#[test]
fn test_systemtime_to_micros_epoch() {
    let micros = systemtime_to_micros(UNIX_EPOCH);
    assert_eq!(micros, 0);
}

#[test]
fn test_systemtime_to_micros_now() {
    let now = SystemTime::now();
    let micros = systemtime_to_micros(now);
    assert!(micros > 1_000_000_000_000_000, "Timestamp should be in reasonable range");
}

#[test]
fn times_before_the_epoch_give_zero_and_micros_truncate() {
    assert_eq!(systemtime_to_micros(UNIX_EPOCH - Duration::from_secs(5)), 0);
    assert_eq!(truncate_micros((1u128 << 64) + 7), 7);
}

#[test]
fn evdev_values_map_to_press_release_and_skip_repeats() {
    assert_eq!(key_event_from_evdev(30, 1), Some(KeyEvent::Press(KeyCode::A)));
    assert_eq!(key_event_from_evdev(30, 0), Some(KeyEvent::Release(KeyCode::A)));
    assert_eq!(key_event_from_evdev(30, 2), None);
    assert_eq!(key_event_from_evdev(0xFFFF, 1), None);
}

#[test]
fn held_keys_follow_presses_and_releases() {
    let mut held = HeldKeys::new();
    assert!(held.is_empty());
    held.record(KeyEvent::Press(KeyCode::A));
    held.record(KeyEvent::Press(KeyCode::LShift));
    held.record(KeyEvent::Press(KeyCode::A));
    assert_eq!(held.len(), 2);
    assert!(held.contains(KeyCode::A));
    held.record(KeyEvent::Release(KeyCode::A));
    assert!(!held.contains(KeyCode::A));
    held.record(KeyEvent::Press(KeyCode::B));
    let mut all = held.take_all();
    all.sort_by_key(|k| format!("{:?}", k));
    assert_eq!(all, vec![KeyCode::B, KeyCode::LShift]);
    assert!(held.is_empty());
}

#[test]
fn test_extract_serial_normal() {
    let device_map = DeviceMap::new();
    let path = r"\\?\HID#VID_046D&PID_C52B&MI_00#7&2a00c76d&0&0000#{884b96c3-56ef-11d1-bc8c-00a0c91405dd}";
    let serial = device_map.extract_serial(path);
    assert_eq!(serial, Some("7&2a00c76d&0&0000".to_string()));
}

#[test]
fn test_extract_serial_short_path() {
    let device_map = DeviceMap::new();
    let path = r"\\?\HID#VID_1234&PID_5678";
    let serial = device_map.extract_serial(path);
    assert_eq!(serial, None);
}

#[test]
fn test_extract_serial_empty() {
    let device_map = DeviceMap::new();
    let path = "";
    let serial = device_map.extract_serial(path);
    assert_eq!(serial, None);
}

#[test]
fn test_extract_serial_malformed() {
    let device_map = DeviceMap::new();
    let path = "not-a-hid-path";
    let serial = device_map.extract_serial(path);
    assert_eq!(serial, None);
}

#[test]
fn test_device_map_basic_operations() {
    let map = DeviceMap::new();
    let all = map.all();
    assert!(all.is_empty());
}

#[test]
fn test_synthetic_device() {
    let mut map = DeviceMap::new();
    map.add_synthetic_device(0x1234, "test-path".to_string(), Some("test-serial".to_string()));

    let info = map.get(0x1234).expect("Device should exist");
    assert_eq!(info.handle, 0x1234);
    assert_eq!(info.path, "test-path");
    assert_eq!(info.serial, Some("test-serial".to_string()));

    let all = map.all();
    assert_eq!(all.len(), 1);

    map.remove_device(0x1234);
    assert!(map.get(0x1234).is_none());
}

#[test]
fn adding_a_device_reads_its_serial_and_replaces_the_old_entry() {
    let mut map = DeviceMap::new();
    let info = map.add_device(5, r"\\?\HID#VID_1&PID_2#SER#x".to_string());
    assert_eq!(info.serial, Some("SER".to_string()));
    map.add_device(5, "plain".to_string());
    assert_eq!(map.all().len(), 1);
    assert_eq!(map.get(5).unwrap().serial, None);
    assert_eq!(map.get(5).unwrap().device_id(), "path-plain");
}

#[test]
fn test_parse_vid_pid() {
    let path = r"\\?\HID#VID_046D&PID_C52B&MI_00#7&2a00c76d&0&0000#{884b96c3-56ef-11d1-bc8c-00a0c91405dd}";
    let (vendor_id, product_id) = parse_vid_pid(path);
    assert_eq!(vendor_id, 0x046D);
    assert_eq!(product_id, 0xC52B);

    let path2 = r"\\?\HID#VID_1234&PID_5678";
    let (vendor_id2, product_id2) = parse_vid_pid(path2);
    assert_eq!(vendor_id2, 0x1234);
    assert_eq!(product_id2, 0x5678);

    let path3 = r"\\?\HID#SOMEDEVICE";
    let (vendor_id3, product_id3) = parse_vid_pid(path3);
    assert_eq!(vendor_id3, 0);
    assert_eq!(product_id3, 0);
}

#[test]
fn parse_vid_pid_edge_cases() {
    assert_eq!(parse_vid_pid("VID_12&PID_+ab"), (0x12, 0xab));
    assert_eq!(parse_vid_pid("VID_XYZ1&PID_"), (0, 0));
    assert_eq!(parse_vid_pid("VID_0001&VID_zz&VID_0002"), (2, 0));
    assert_eq!(parse_vid_pid("VID_12345"), (0x1234, 0));
    assert_eq!(parse_vid_pid("vid_1234"), (0, 0));
}

#[test]
fn test_convert_device_info() {
    let device = RawDeviceInfo {
        handle: 0x1234,
        path: r"\\?\HID#VID_046D&PID_C52B&MI_00#7&2a00c76d&0&0000#{884b96c3-56ef-11d1-bc8c-00a0c91405dd}".to_string(),
        serial: Some("7&2a00c76d&0&0000".to_string()),
    };

    let common = convert_device_info(&device);
    assert_eq!(common.id, "serial-7&2a00c76d&0&0000");
    assert_eq!(common.vendor_id, 0x046D);
    assert_eq!(common.product_id, 0xC52B);
    assert_eq!(common.path, device.path);
    assert_eq!(common.name, "Keyboard (serial-7&2a00c76d&0&0000)");
}

#[test]
fn hook_takes_over_physical_key_messages_only() {
    assert_eq!(hook_event(0, 0, 0x41, 0x100), Some(KeyEvent::Press(KeyCode::A)));
    assert_eq!(hook_event(0, 0, 0x41, 0x105), Some(KeyEvent::Release(KeyCode::A)));
    assert_eq!(hook_event(0x10, DAEMON_OUTPUT_MARKER, 0x41, 0x100), None);
    assert_eq!(
        hook_event(0x10, TEST_SIMULATED_PHYSICAL_MARKER, 0x41, 0x104),
        Some(KeyEvent::Press(KeyCode::A))
    );
    assert_eq!(hook_event(0, 0, 0x07, 0x100), None);
    assert_eq!(hook_event(0, 0, 0x41, 0x200), None);
}

#[test]
fn injection_flags_mark_release_scancode_and_extended_keys() {
    assert_eq!(injection_input(KeyEvent::Press(KeyCode::A)), Some((0x41, 0x8)));
    assert_eq!(injection_input(KeyEvent::Release(KeyCode::A)), Some((0x41, 0xA)));
    assert_eq!(injection_input(KeyEvent::Release(KeyCode::Left)), Some((0x25, 0xB)));
}

#[test]
fn raw_keyboard_reports_decode_e0_and_break() {
    assert_eq!(decode_raw_keyboard(0x1E, 0), Some(RawKey { scancode: 0x1E, released: false }));
    assert_eq!(decode_raw_keyboard(0x1D, 3), Some(RawKey { scancode: 0xE01D, released: true }));
    assert_eq!(decode_raw_keyboard(0xFF, 0), None);
}


#[test]
fn injection_after_destroy_fails() {
    let mut state = InjectionState::new();
    assert!(state.check_inject().is_ok());
    state.destroy();
    assert!(state.is_destroyed());
    match state.check_inject() {
        Err(DeviceError::InjectionFailed(m)) => assert_eq!(m, "device has been destroyed"),
        other => panic!("unexpected {:?}", other.is_ok()),
    }
}

#[test]
fn held_keys_are_tracked_and_released_once_on_destroy() {
    let mut state = InjectionState::new();
    state.injected(KeyEvent::Press(KeyCode::A));
    state.injected(KeyEvent::Press(KeyCode::LShift));
    state.injected(KeyEvent::Release(KeyCode::A));
    assert!(!state.is_held(KeyCode::A));
    assert!(state.is_held(KeyCode::LShift));
    let released = state.destroy();
    assert_eq!(released, vec![KeyCode::LShift]);
    assert!(!state.is_held(KeyCode::LShift));
    assert!(state.destroy().is_empty());
}

#[test]
fn device_open_grab_and_read_failures_are_classified() {
    let nf = std::io::Error::new(std::io::ErrorKind::NotFound, "x");
    match open_failure(nf, "/dev/input/event9") {
        DeviceError::NotFound(m) => assert_eq!(m, "device not found: /dev/input/event9"),
        other => panic!("unexpected {}", other.to_string()),
    }
    let pd = std::io::Error::new(std::io::ErrorKind::PermissionDenied, "x");
    match open_failure(pd, "/dev/input/event9") {
        DeviceError::PermissionDenied(m) => assert_eq!(
            m,
            "cannot access /dev/input/event9: permission denied. Try adding user to 'input' group"
        ),
        other => panic!("unexpected {}", other.to_string()),
    }
    let other = std::io::Error::new(std::io::ErrorKind::Other, "busy");
    assert!(matches!(open_failure(other, "p"), DeviceError::Io(_)));
    let pd = std::io::Error::new(std::io::ErrorKind::PermissionDenied, "x");
    match grab_failure(pd, "/dev/input/event1") {
        DeviceError::PermissionDenied(m) => assert_eq!(
            m,
            "cannot grab device /dev/input/event1: permission denied. Try running as root or with CAP_SYS_ADMIN"
        ),
        other => panic!("unexpected {}", other.to_string()),
    }
    let nf = std::io::Error::new(std::io::ErrorKind::NotFound, "x");
    assert!(matches!(grab_failure(nf, "p"), DeviceError::Io(_)));
    let wb = std::io::Error::new(std::io::ErrorKind::WouldBlock, "x");
    assert!(matches!(read_failure(wb), DeviceError::EndOfStream));
    let other = std::io::Error::new(std::io::ErrorKind::Other, "x");
    assert!(matches!(read_failure(other), DeviceError::Io(_)));
}

#[test]
fn evdev_batches_keep_key_presses_and_releases_in_order() {
    let batch = vec![(30u16, 1i32), (0, 0), (30, 2), (48, 1), (30, 0), (0xFFFF, 1)];
    assert_eq!(
        key_events_from_batch(&batch),
        vec![KeyEvent::Press(KeyCode::A), KeyEvent::Press(KeyCode::B), KeyEvent::Release(KeyCode::A)]
    );
}

#[test]
fn raw_input_notifications() {
    assert!(raw_input_size_ok(4096));
    assert!(!raw_input_size_ok(4097));
    assert_eq!(device_change(1), Some(DeviceChange::Arrived));
    assert_eq!(device_change(2), Some(DeviceChange::Removed));
    assert_eq!(device_change(3), None);
}

#[test]
fn device_table_counts_each_handle_once() {
    let mut map = DeviceMap::new();
    map.add_synthetic_device(1, "a".to_string(), None);
    map.add_synthetic_device(2, "b".to_string(), Some("s".to_string()));
    assert_eq!(map.all().len(), 2);
    map.add_synthetic_device(2, "c".to_string(), None);
    let all = map.all();
    assert_eq!(all.len(), 2);
    assert_eq!(all.iter().filter(|d| d.handle == 2).count(), 1);
    assert_eq!(map.get(2).unwrap().path, "c");
    assert_eq!(map.get(1).unwrap().path, "a");
    map.remove_device(1);
    assert_eq!(map.all().len(), 1);
}

#[test]
fn evdev_events_carry_their_kernel_time() {
    let time = UNIX_EPOCH + Duration::from_micros(2_000_123);
    assert_eq!(
        timed_key_event_from_evdev(30, 1, time),
        Some(TimedKeyEvent { event: KeyEvent::Press(KeyCode::A), timestamp_us: 2_000_123 })
    );
    assert_eq!(
        timed_key_event_from_evdev(30, 0, UNIX_EPOCH - Duration::from_secs(1)),
        Some(TimedKeyEvent { event: KeyEvent::Release(KeyCode::A), timestamp_us: 0 })
    );
    assert_eq!(timed_key_event_from_evdev(30, 2, time), None);
    assert_eq!(timed_key_event_from_evdev(0xFFFF, 1, time), None);
}
