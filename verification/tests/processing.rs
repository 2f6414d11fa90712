use std::time::{Duration, UNIX_EPOCH};
use keyrx_daemon::keys::{KeyCode, KeyEvent};
use keyrx_daemon::platform::DeviceError;
use keyrx_daemon::processor::logging::{
    current_timestamp, format_lock_toggled, format_modifier_activated, format_modifier_deactivated,
    format_timestamp, log_config_loaded, log_key_processed, timestamp_of, log_platform_error, log_state_transition,
};
use keyrx_daemon::processor::{after_step, detect_state_transition, MappingRole, ProcessorError};
use keyrx_daemon::processor::{inject_output_events, input_failure_report, output_failure_report};
use keyrx_daemon::platform::{MockOutput, OutputDevice};

#[test]
fn test_timestamp_format() {
    let ts = current_timestamp();
    assert!(ts.contains('T'));
    assert!(ts.ends_with('Z'));
    assert_eq!(ts.len(), 24);
}

#[test]
fn timestamp_of_known_instants() {
    assert_eq!(format_timestamp(0, 0), "1970-01-01T00:00:00.000Z");
    assert_eq!(format_timestamp(31_557_600 + 3_723, 456_000_000), "1971-01-01T07:02:03.456Z");
    assert_eq!(format_timestamp(86_400 * 40 + 59, 999_999_999), "1970-02-10T00:00:59.999Z");
}

#[test]
fn test_format_modifier_activated() {
    let json = format_modifier_activated(5);
    assert!(json.contains(r#""transition_type":"modifier_activated""#));
    assert!(json.contains(r#""modifier_id":5"#));
}

#[test]
fn test_format_modifier_deactivated() {
    let json = format_modifier_deactivated(10);
    assert!(json.contains(r#""transition_type":"modifier_deactivated""#));
    assert!(json.contains(r#""modifier_id":10"#));
}

#[test]
fn test_format_lock_toggled() {
    let json = format_lock_toggled(3);
    assert!(json.contains(r#""transition_type":"lock_toggled""#));
    assert!(json.contains(r#""lock_id":3"#));
}

#[test]
fn transition_contexts_are_exact_json() {
    assert_eq!(format_modifier_activated(255), r#"{"transition_type":"modifier_activated","modifier_id":255}"#);
    assert_eq!(format_lock_toggled(0), r#"{"transition_type":"lock_toggled","lock_id":0}"#);
}

#[test]
fn log_lines_follow_the_schema() {
    let line = log_config_loaded(7);
    assert!(line.starts_with(r#"{"timestamp":""#));
    assert!(line.contains(r#""event_type":"config_loaded","context":{"mapping_count":7}}"#));
    let line = log_state_transition(r#"{"a":1}"#);
    assert!(line.ends_with(r#""event_type":"state_transition","context":{"a":1}}"#));
    let line = log_platform_error("boom", "input");
    assert!(line.ends_with(r#""context":{"error":"boom","device":"input"}}"#));
    assert!(line.contains(r#""level":"ERROR""#));
}

#[test]
fn state_transitions_of_mapped_keys() {
    assert_eq!(
        detect_state_transition(Some(MappingRole::Modifier(2)), KeyEvent::Press(KeyCode::CapsLock)),
        Some(format_modifier_activated(2))
    );
    assert_eq!(
        detect_state_transition(Some(MappingRole::Modifier(2)), KeyEvent::Release(KeyCode::CapsLock)),
        Some(format_modifier_deactivated(2))
    );
    assert_eq!(
        detect_state_transition(Some(MappingRole::Lock(1)), KeyEvent::Press(KeyCode::ScrollLock)),
        Some(format_lock_toggled(1))
    );
    assert_eq!(detect_state_transition(Some(MappingRole::Lock(1)), KeyEvent::Release(KeyCode::ScrollLock)), None);
    assert_eq!(detect_state_transition(Some(MappingRole::Output), KeyEvent::Press(KeyCode::A)), None);
    assert_eq!(detect_state_transition(None, KeyEvent::Press(KeyCode::A)), None);
}

#[test]
fn the_loop_stops_cleanly_at_end_of_stream() {
    assert!(after_step(Ok(())).is_none());
    assert!(matches!(after_step(Err(ProcessorError::Input(DeviceError::EndOfStream))), Some(Ok(()))));
    assert!(matches!(
        after_step(Err(ProcessorError::Input(DeviceError::NotFound("x".into())))),
        Some(Err(ProcessorError::Input(DeviceError::NotFound(_))))
    ));
    assert!(matches!(
        after_step(Err(ProcessorError::Output(DeviceError::EndOfStream))),
        Some(Err(ProcessorError::Output(DeviceError::EndOfStream)))
    ));
}

#[test]
fn processor_error_texts() {
    assert_eq!(ProcessorError::Input(DeviceError::EndOfStream).to_string(), "input device error: end of stream");
    assert_eq!(
        ProcessorError::Output(DeviceError::InjectionFailed("x".into())).to_string(),
        "output device error: event injection failed: x"
    );
    let from: ProcessorError = DeviceError::NotFound("k".into()).into();
    assert_eq!(from.to_string(), "input device error: device not found: k");
}

#[test]
fn key_processed_line_names_the_keys() {
    let line = log_key_processed(KeyCode::A, &[KeyCode::LShift, KeyCode::Num1], 42);
    assert!(line.ends_with(
        r#""event_type":"key_processed","context":{"input_key":"A","output_keys":["LShift","Num1"],"latency_us":42}}"#
    ));
    let line = log_key_processed(KeyCode::CapsLock, &[], 0);
    assert!(line.ends_with(r#""input_key":"CapsLock","output_keys":[],"latency_us":0}}"#));
    assert_eq!(KeyCode::NumpadEnter.name(), format!("{:?}", KeyCode::NumpadEnter));
}

#[test]
fn timestamps_of_clock_readings() {
    assert_eq!(timestamp_of(&(UNIX_EPOCH + Duration::from_millis(1_500))), "1970-01-01T00:00:01.500Z");
    assert_eq!(timestamp_of(&(UNIX_EPOCH - Duration::from_secs(1))), "1970-01-01T00:00:00.000Z");
}

#[test]
fn input_failures_are_reported_except_end_of_stream() {
    let (err, line) = input_failure_report(DeviceError::EndOfStream);
    assert!(matches!(err, ProcessorError::Input(DeviceError::EndOfStream)));
    assert!(line.is_none());

    let (err, line) = input_failure_report(DeviceError::NotFound("kbd".to_string()));
    assert!(matches!(err, ProcessorError::Input(DeviceError::NotFound(_))));
    let line = line.expect("a failure other than the end of input is logged");
    assert!(line.contains("\"event_type\":\"platform_error\""));
    assert!(line.ends_with("\"context\":{\"error\":\"device not found: kbd\",\"device\":\"input\"}}"));
}

#[test]
fn output_failures_are_reported_for_the_output_device() {
    let (err, line) = output_failure_report(DeviceError::InjectionFailed("busy".to_string()));
    assert!(matches!(err, ProcessorError::Output(DeviceError::InjectionFailed(_))));
    assert!(line.ends_with("\"context\":{\"error\":\"event injection failed: busy\",\"device\":\"output\"}}"));
}

#[test]
fn injection_sends_every_event_in_order_or_stops_at_a_failure() {
    let events = [
        KeyEvent::Press(KeyCode::A),
        KeyEvent::Release(KeyCode::A),
        KeyEvent::Press(KeyCode::B),
    ];
    let mut output = MockOutput::new();
    assert!(inject_output_events(&mut output, &[]).is_ok());
    assert!(output.events().is_empty());
    assert!(inject_output_events(&mut output, &events).is_ok());
    assert_eq!(output.events(), &events[..]);

    output.set_fail_mode(true);
    match inject_output_events(&mut output, &[KeyEvent::Release(KeyCode::B)]) {
        Err((ProcessorError::Output(DeviceError::InjectionFailed(_)), line)) => {
            assert!(line.contains("\"device\":\"output\""));
        }
        _ => panic!("a device in fail mode refuses the injection"),
    }
    assert_eq!(output.events(), &events[..]);
}

#[test]
fn mock_output_in_fail_mode_refuses_events() {
    let mut output = MockOutput::new();
    output.set_fail_mode(true);
    assert!(output.inject_event(KeyEvent::Press(KeyCode::A)).is_err());
    output.set_fail_mode(false);
    assert!(output.inject_event(KeyEvent::Press(KeyCode::A)).is_ok());
    assert_eq!(output.events(), &[KeyEvent::Press(KeyCode::A)][..]);
}
