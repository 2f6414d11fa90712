use std::io;
use std::time::Duration;

use keyrx_daemon::cli::{first_matching_pattern, truncate_string};
use keyrx_daemon::keys::{KeyCode, KeyEvent};
use keyrx_daemon::test_utils::output_capture::{
    after_empty_poll, is_access_denied, is_event_node, poll_interval, EventBuffer, PollStep,
    POLL_INTERVAL_MS,
};
use keyrx_daemon::test_utils::{tap_events, VirtualDeviceError};

#[test]
fn test_error_display_permission_denied() {
    let err = VirtualDeviceError::uinput_permission_denied();
    let msg = err.to_string();
    assert!(msg.contains("permission denied"));
    assert!(msg.contains("/dev/uinput"));
    assert!(msg.contains("'uinput' group"));
}

#[test]
fn test_error_display_not_found() {
    let err = VirtualDeviceError::device_not_found("test-device", 5000);
    let msg = err.to_string();
    assert!(msg.contains("test-device"));
    assert!(msg.contains("5000ms"));
}

#[test]
fn test_error_display_timeout() {
    let err = VirtualDeviceError::timeout("reading events", 1000);
    let msg = err.to_string();
    assert!(msg.contains("timeout"));
    assert!(msg.contains("1000ms"));
    assert!(msg.contains("reading events"));
}

#[test]
fn test_error_display_io() {
    let io_err = io::Error::new(io::ErrorKind::NotFound, "file not found");
    let err = VirtualDeviceError::from(io_err);
    let msg = err.to_string();
    assert!(msg.contains("I/O error"));
}

#[test]
fn test_error_display_creation_failed() {
    let err = VirtualDeviceError::creation_failed("uinput not available");
    let msg = err.to_string();
    assert!(msg.contains("failed to create"));
    assert!(msg.contains("uinput not available"));
}

#[test]
fn virtual_device_error_texts_are_exact() {
    assert_eq!(
        VirtualDeviceError::evdev_permission_denied("/dev/input/event4").to_string(),
        "permission denied: cannot access /dev/input/event4\n\nFix: Add your user to the 'input' group: sudo usermod -aG input $USER\nThen log out and back in."
    );
    assert_eq!(
        VirtualDeviceError::device_not_found("kbd", 0).to_string(),
        "device not found: kbd (searched for 0ms)"
    );
    assert_eq!(
        VirtualDeviceError::timeout("sync", 18446744073709551615).to_string(),
        "timeout after 18446744073709551615ms waiting for sync"
    );
}

#[test]
fn output_capture_test_poll_interval_is_reasonable() {
    assert!(poll_interval() >= Duration::from_millis(10));
    assert!(poll_interval() <= Duration::from_millis(200));
    assert_eq!(poll_interval(), Duration::from_millis(POLL_INTERVAL_MS));
}

#[test]
fn linux_test_poll_interval_is_reasonable() {
    assert!(poll_interval() >= Duration::from_millis(10));
    assert!(poll_interval() <= Duration::from_millis(200));
}

#[test]
fn device_search_decisions() {
    assert!(is_event_node(Some("event12")));
    assert!(!is_event_node(Some("mouse0")));
    assert!(!is_event_node(None));
    assert!(is_access_denied("Permission denied (os error 13)"));
    assert!(is_access_denied("EACCES"));
    assert!(!is_access_denied("Device or resource busy"));
    assert_eq!(after_empty_poll(10, 100), PollStep::Wait);
    assert_eq!(after_empty_poll(100, 100), PollStep::GiveUp);
}

#[test]
fn test_tap_events_helper() {
    let events = tap_events(KeyCode::A);
    assert_eq!(events.len(), 2);
    assert_eq!(events[0], KeyEvent::Press(KeyCode::A));
    assert_eq!(events[1], KeyEvent::Release(KeyCode::A));
}

#[test]
fn test_tap_events_modifier() {
    let events = tap_events(KeyCode::LShift);
    assert_eq!(events.len(), 2);
    assert_eq!(events[0], KeyEvent::Press(KeyCode::LShift));
    assert_eq!(events[1], KeyEvent::Release(KeyCode::LShift));
}

#[test]
fn truncation_of_device_names() {
    assert_eq!(truncate_string("Short", 24), "Short");
    assert_eq!(truncate_string("A very long keyboard device name", 24), "A very long keyboard ...");
    assert_eq!(truncate_string("abcdef", 3), "abc");
    assert_eq!(truncate_string("abcdef", 6), "abcdef");
    assert_eq!(truncate_string("abcdefg", 6), "abc...");
    assert_eq!(truncate_string("héllo wörld", 8), "héll...");
}

#[test]
fn first_matching_pattern_wins() {
    assert_eq!(first_matching_pattern(&vec![false, true, true]), Some(1));
    assert_eq!(first_matching_pattern(&vec![false, false]), None);
    assert_eq!(first_matching_pattern(&vec![]), None);
}

#[test]
fn event_buffer_hands_out_a_batch_in_order() {
    let mut buffer = EventBuffer::new();
    assert_eq!(buffer.take_front(), None);
    assert_eq!(buffer.accept_batch(vec![]), None);
    let first = buffer.accept_batch(vec![
        KeyEvent::Press(KeyCode::A),
        KeyEvent::Release(KeyCode::A),
        KeyEvent::Press(KeyCode::B),
    ]);
    assert_eq!(first, Some(KeyEvent::Press(KeyCode::A)));
    assert_eq!(buffer.len(), 2);
    assert_eq!(buffer.accept_batch(vec![KeyEvent::Release(KeyCode::B), KeyEvent::Press(KeyCode::C)]), Some(KeyEvent::Release(KeyCode::B)));
    assert_eq!(buffer.take_front(), Some(KeyEvent::Release(KeyCode::A)));
    assert_eq!(buffer.take_front(), Some(KeyEvent::Press(KeyCode::B)));
    assert_eq!(buffer.clear(), 1);
    assert_eq!(buffer.len(), 0);
    assert_eq!(buffer.take_front(), None);
}
