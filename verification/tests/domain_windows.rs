use keyrx_daemon::platform::domain::{
    DomainError, HookCallbackAggregate, LowLevelHookService, RawInputDeviceAggregate, ScanCodeVO,
    SendInputService, VirtualKeyCodeVO,
};

#[test]
fn test_raw_input_device_aggregate_creation() {
    let device = RawInputDeviceAggregate::new("Keyboard".into());

    assert_eq!(device.name(), "Keyboard");
    assert!(!device.is_registered());
    assert!(!device.is_background_capture());
    assert_eq!(device.version(), 0);
}

#[test]
fn test_raw_input_device_aggregate_register() {
    let mut device = RawInputDeviceAggregate::new("Keyboard".into());

    device.register(true).unwrap();

    assert!(device.is_registered());
    assert!(device.is_background_capture());
    assert_eq!(device.version(), 1);
}

#[test]
fn test_raw_input_device_aggregate_unregister() {
    let mut device = RawInputDeviceAggregate::new("Keyboard".into());

    device.register(true).unwrap();
    device.unregister().unwrap();

    assert!(!device.is_registered());
    assert!(!device.is_background_capture());
    assert_eq!(device.version(), 2);
}

#[test]
fn test_raw_input_device_aggregate_double_register() {
    let mut device = RawInputDeviceAggregate::new("Keyboard".into());

    device.register(false).unwrap();

    let result = device.register(false);
    assert!(matches!(result, Err(DomainError::ConstraintViolation(_))));
}

#[test]
fn raw_input_unregister_without_register_is_refused() {
    let mut device = RawInputDeviceAggregate::new("Keyboard".into());
    assert!(matches!(device.unregister(), Err(DomainError::ConstraintViolation(_))));
    assert_eq!(device.version(), 0);
    assert!(device.validate().is_ok());
    let unnamed = RawInputDeviceAggregate::new(String::new());
    assert!(unnamed.validate().is_err());
}

#[test]
fn test_hook_callback_aggregate_creation() {
    let hook = HookCallbackAggregate::new();

    assert!(!hook.is_installed());
    assert!(hook.is_suppressing_events());
    assert_eq!(hook.handle(), None);
    assert_eq!(hook.version(), 0);
}

#[test]
fn test_hook_callback_aggregate_install() {
    let mut hook = HookCallbackAggregate::new();

    hook.install(0x12345678, true).unwrap();

    assert!(hook.is_installed());
    assert!(hook.is_suppressing_events());
    assert_eq!(hook.handle(), Some(0x12345678));
    assert_eq!(hook.version(), 1);
}

#[test]
fn test_hook_callback_aggregate_uninstall() {
    let mut hook = HookCallbackAggregate::new();

    hook.install(0x12345678, true).unwrap();
    hook.uninstall().unwrap();

    assert!(!hook.is_installed());
    assert_eq!(hook.handle(), None);
    assert_eq!(hook.version(), 2);
}

#[test]
fn test_hook_callback_aggregate_invalid_handle() {
    let mut hook = HookCallbackAggregate::new();

    let result = hook.install(0, true);
    assert!(matches!(result, Err(DomainError::InvalidDeviceHandle(_))));
}

#[test]
fn test_hook_callback_aggregate_suppression() {
    let mut hook = HookCallbackAggregate::new();

    hook.install(0x12345678, true).unwrap();

    hook.disable_suppression().unwrap();
    assert!(!hook.is_suppressing_events());
    assert_eq!(hook.version(), 2);

    hook.enable_suppression().unwrap();
    assert!(hook.is_suppressing_events());
    assert_eq!(hook.version(), 3);
}

#[test]
fn test_hook_callback_aggregate_suppression_without_install() {
    let mut hook = HookCallbackAggregate::new();

    let result = hook.disable_suppression();
    assert!(matches!(result, Err(DomainError::ConstraintViolation(_))));
}

#[test]
fn test_hook_callback_aggregate_validation() {
    let mut hook = HookCallbackAggregate::new();

    assert!(hook.validate().is_ok());

    hook.install(0x12345678, true).unwrap();
    assert!(hook.validate().is_ok());
}

#[test]
fn hook_default_matches_new_and_double_install_is_refused() {
    let hook = HookCallbackAggregate::default();
    assert!(!hook.is_installed());
    assert!(hook.is_suppressing_events());
    let mut hook = hook;
    hook.install(7, false).unwrap();
    assert!(!hook.is_suppressing_events());
    assert!(matches!(hook.install(8, true), Err(DomainError::ConstraintViolation(_))));
    assert!(matches!(hook.disable_suppression(), Err(DomainError::ConstraintViolation(_))));
    assert_eq!(hook.handle(), Some(7));
    assert_eq!(hook.version(), 1);
}

#[test]
fn test_low_level_hook_service_can_capture() {
    let service = LowLevelHookService::new();

    let mut hook = HookCallbackAggregate::new();

    let result = service.can_capture(&hook);
    assert!(matches!(result, Err(DomainError::ConstraintViolation(_))));

    hook.install(0x12345678, true).unwrap();
    assert!(service.can_capture(&hook).is_ok());
}

#[test]
fn test_low_level_hook_service_can_suppress_events() {
    let service = LowLevelHookService::new();

    let mut hook = HookCallbackAggregate::new();

    let result = service.can_suppress_events(&hook);
    assert!(matches!(result, Err(DomainError::ConstraintViolation(_))));

    hook.install(0x12345678, true).unwrap();
    assert!(service.can_suppress_events(&hook).is_ok());

    hook.disable_suppression().unwrap();
    let result = service.can_suppress_events(&hook);
    assert!(matches!(result, Err(DomainError::ConstraintViolation(_))));
}

#[test]
fn test_low_level_hook_service_validate_virtual_key() {
    let service = LowLevelHookService::new();

    let valid_vk = VirtualKeyCodeVO::new(0x41);
    assert!(service.validate_virtual_key(valid_vk).is_ok());

    let invalid_vk = VirtualKeyCodeVO::new(0x00);
    let result = service.validate_virtual_key(invalid_vk);
    assert!(matches!(result, Err(DomainError::ConstraintViolation(_))));
}

#[test]
fn test_low_level_hook_service_validate_scan_code() {
    let service = LowLevelHookService::new();

    let valid_scan = ScanCodeVO::new(0x1E, false);
    assert!(service.validate_scan_code(valid_scan).is_ok());

    let invalid_scan = ScanCodeVO::new(0, false);
    let result = service.validate_scan_code(invalid_scan);
    assert!(matches!(result, Err(DomainError::ConstraintViolation(_))));
}

#[test]
fn test_send_input_service_validate_virtual_key() {
    let service = SendInputService::new();

    let valid_vk = VirtualKeyCodeVO::new(0x41);
    assert!(service.validate_virtual_key(valid_vk).is_ok());

    let invalid_vk = VirtualKeyCodeVO::new(0x00);
    let result = service.validate_virtual_key(invalid_vk);
    assert!(matches!(result, Err(DomainError::ConstraintViolation(_))));
}

#[test]
fn test_send_input_service_validate_event_pair() {
    let service = SendInputService::new();

    let vk_a = VirtualKeyCodeVO::new(0x41);
    let vk_b = VirtualKeyCodeVO::new(0x42);

    assert!(service.validate_event_pair(vk_a, vk_a).is_ok());

    let result = service.validate_event_pair(vk_a, vk_b);
    assert!(matches!(result, Err(DomainError::ConstraintViolation(_))));
}

#[test]
fn test_send_input_service_validate_modifier_sequence() {
    let service = SendInputService::new();

    let modifiers = vec![VirtualKeyCodeVO::new(0x10), VirtualKeyCodeVO::new(0x11), VirtualKeyCodeVO::new(0x12)];
    assert!(service.validate_modifier_sequence(&modifiers).is_ok());

    let mixed = vec![VirtualKeyCodeVO::new(0x10), VirtualKeyCodeVO::new(0x41)];
    let result = service.validate_modifier_sequence(&mixed);
    assert!(matches!(result, Err(DomainError::ConstraintViolation(_))));

    let empty = vec![];
    let result = service.validate_modifier_sequence(&empty);
    assert!(matches!(result, Err(DomainError::ConstraintViolation(_))));
}

#[test]
fn modifier_sequence_with_invalid_key_reports_the_invalid_key() {
    let service = SendInputService::new();
    let keys = vec![VirtualKeyCodeVO::new(0x10), VirtualKeyCodeVO::new(0xFF)];
    match service.validate_modifier_sequence(&keys) {
        Err(DomainError::ConstraintViolation(m)) => assert_eq!(m, "Invalid virtual key code"),
        other => panic!("unexpected {:?}", other),
    }
}

#[test]
fn test_virtual_key_code_vo_creation() {
    let vk = VirtualKeyCodeVO::new(0x41);
    assert_eq!(vk.as_raw(), 0x41);
    assert!(vk.is_valid());
    assert!(!vk.is_modifier());
    assert!(!vk.is_lock());
}

#[test]
fn test_virtual_key_code_vo_modifiers() {
    let shift = VirtualKeyCodeVO::new(0x10);
    assert!(shift.is_modifier());
    assert!(!shift.is_lock());

    let ctrl = VirtualKeyCodeVO::new(0x11);
    assert!(ctrl.is_modifier());

    let alt = VirtualKeyCodeVO::new(0x12);
    assert!(alt.is_modifier());
}

#[test]
fn test_virtual_key_code_vo_locks() {
    let caps = VirtualKeyCodeVO::new(0x14);
    assert!(caps.is_lock());
    assert!(!caps.is_modifier());

    let num = VirtualKeyCodeVO::new(0x90);
    assert!(num.is_lock());
}

#[test]
fn test_virtual_key_code_vo_invalid() {
    let invalid = VirtualKeyCodeVO::new(0x00);
    assert!(!invalid.is_valid());

    let invalid2 = VirtualKeyCodeVO::new(0xFF);
    assert!(!invalid2.is_valid());
}

#[test]
fn test_virtual_key_code_vo_from_u8() {
    let vk: VirtualKeyCodeVO = 0x41u8.into();
    assert_eq!(vk.as_raw(), 0x41);
}

#[test]
fn test_scan_code_vo_creation() {
    let scan = ScanCodeVO::new(0x1E, false);
    assert_eq!(scan.as_raw(), 0x1E);
    assert!(!scan.is_extended());
    assert!(scan.is_valid());
}

#[test]
fn test_scan_code_vo_extended() {
    let scan = ScanCodeVO::new(0x1C, true);
    assert_eq!(scan.as_raw(), 0x1C);
    assert!(scan.is_extended());
    assert_eq!(scan.as_full_scan_code(), 0xE01C);
}

#[test]
fn test_scan_code_vo_invalid() {
    let invalid = ScanCodeVO::new(0, false);
    assert!(!invalid.is_valid());
}

#[test]
fn test_scan_code_vo_from_u16() {
    let scan: ScanCodeVO = 0x1Eu16.into();
    assert_eq!(scan.as_raw(), 0x1E);
    assert!(!scan.is_extended());

    let scan_ext: ScanCodeVO = 0xE01Cu16.into();
    assert_eq!(scan_ext.as_raw(), 0x1C);
    assert!(scan_ext.is_extended());
}

#[test]
fn test_scan_code_vo_roundtrip() {
    let original = ScanCodeVO::new(0x1E, false);
    let from_u16: ScanCodeVO = original.as_full_scan_code().into();
    assert_eq!(from_u16.as_raw(), original.as_raw());
    assert_eq!(from_u16.is_extended(), original.is_extended());

    let original_ext = ScanCodeVO::new(0x1C, true);
    let from_u16_ext: ScanCodeVO = original_ext.as_full_scan_code().into();
    assert_eq!(from_u16_ext.as_raw(), original_ext.as_raw());
    assert_eq!(from_u16_ext.is_extended(), original_ext.is_extended());
}

#[test]
fn scan_code_from_u16_keeps_nine_bits_and_needs_all_three_prefix_bits() {
    let partial: ScanCodeVO = 0x6123u16.into();
    assert!(!partial.is_extended());
    assert_eq!(partial.as_raw(), 0x0123);
}
