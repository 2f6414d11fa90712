use keyrx_daemon::platform::domain::{
    DeviceFdVO, DevicePathVO, DomainError, EvdevCaptureService, EvdevDeviceAggregate, EventCodeVO,
    UinputDeviceAggregate, UinputInjectionService,
};

#[test]
fn test_evdev_device_aggregate_creation() {
    let path = DevicePathVO::new("/dev/input/event0".into()).unwrap();
    let device = EvdevDeviceAggregate::new(path.clone(), "Test Keyboard".into());

    assert_eq!(device.path(), &path);
    assert_eq!(device.name(), "Test Keyboard");
    assert!(!device.is_initialized());
    assert!(!device.is_grabbed());
    assert_eq!(device.version(), 0);
}

#[test]
fn test_evdev_device_aggregate_open() {
    let path = DevicePathVO::new("/dev/input/event0".into()).unwrap();
    let mut device = EvdevDeviceAggregate::new(path, "Test Keyboard".into());

    let fd = DeviceFdVO::new(3).unwrap();
    device.open(fd).unwrap();

    assert!(device.is_initialized());
    assert_eq!(device.fd(), Some(fd));
    assert_eq!(device.version(), 1);
}

#[test]
fn test_evdev_device_aggregate_grab_release() {
    let path = DevicePathVO::new("/dev/input/event0".into()).unwrap();
    let mut device = EvdevDeviceAggregate::new(path, "Test Keyboard".into());

    let fd = DeviceFdVO::new(3).unwrap();
    device.open(fd).unwrap();

    device.grab().unwrap();
    assert!(device.is_grabbed());
    assert_eq!(device.version(), 2);

    device.release().unwrap();
    assert!(!device.is_grabbed());
    assert_eq!(device.version(), 3);
}

#[test]
fn test_evdev_device_aggregate_close() {
    let path = DevicePathVO::new("/dev/input/event0".into()).unwrap();
    let mut device = EvdevDeviceAggregate::new(path, "Test Keyboard".into());

    let fd = DeviceFdVO::new(3).unwrap();
    device.open(fd).unwrap();
    device.grab().unwrap();

    device.close().unwrap();
    assert!(!device.is_initialized());
    assert!(!device.is_grabbed());
    assert_eq!(device.fd(), None);
}

#[test]
fn evdev_double_grab_and_open_are_refused() {
    let path = DevicePathVO::new("/dev/input/event0".into()).unwrap();
    let mut device = EvdevDeviceAggregate::new(path, "Test Keyboard".into());
    assert!(matches!(device.grab(), Err(DomainError::ConstraintViolation(_))));
    device.open(DeviceFdVO::new(5).unwrap()).unwrap();
    assert!(matches!(device.open(DeviceFdVO::new(6).unwrap()), Err(DomainError::ConstraintViolation(_))));
    device.grab().unwrap();
    assert!(matches!(device.grab(), Err(DomainError::ConstraintViolation(_))));
    assert_eq!(device.version(), 2);
    assert_eq!(device.fd(), Some(DeviceFdVO::new(5).unwrap()));
}

#[test]
fn test_uinput_device_aggregate_creation() {
    let device = UinputDeviceAggregate::new("Virtual Keyboard".into());

    assert_eq!(device.name(), "Virtual Keyboard");
    assert!(!device.is_initialized());
    assert!(!device.is_created());
    assert_eq!(device.version(), 0);
}

#[test]
fn test_uinput_device_aggregate_open_create() {
    let mut device = UinputDeviceAggregate::new("Virtual Keyboard".into());

    let fd = DeviceFdVO::new(4).unwrap();
    device.open(fd).unwrap();

    assert!(device.is_initialized());
    assert_eq!(device.fd(), Some(fd));
    assert_eq!(device.version(), 1);

    device.create().unwrap();
    assert!(device.is_created());
    assert_eq!(device.version(), 2);
}

#[test]
fn test_uinput_device_aggregate_destroy() {
    let mut device = UinputDeviceAggregate::new("Virtual Keyboard".into());

    let fd = DeviceFdVO::new(4).unwrap();
    device.open(fd).unwrap();
    device.create().unwrap();

    device.destroy().unwrap();
    assert!(!device.is_created());
    assert_eq!(device.version(), 3);
}

#[test]
fn test_uinput_device_aggregate_validation() {
    let mut device = UinputDeviceAggregate::new("Virtual Keyboard".into());

    assert!(device.validate().is_ok());

    let fd = DeviceFdVO::new(4).unwrap();
    device.open(fd).unwrap();
    assert!(device.validate().is_ok());

    device.create().unwrap();
    assert!(device.validate().is_ok());
}

#[test]
fn uinput_close_destroys_and_nameless_device_is_invalid() {
    let mut device = UinputDeviceAggregate::new("Virtual Keyboard".into());
    device.open(DeviceFdVO::new(4).unwrap()).unwrap();
    device.create().unwrap();
    device.close().unwrap();
    assert!(!device.is_created());
    assert!(!device.is_initialized());
    assert_eq!(device.fd(), None);
    assert_eq!(device.version(), 3);

    let nameless = UinputDeviceAggregate::new(String::new());
    assert!(matches!(nameless.validate(), Err(DomainError::ConstraintViolation(_))));
}

#[test]
fn test_evdev_capture_service_can_capture() {
    let service = EvdevCaptureService::new();

    let path = DevicePathVO::new("/dev/input/event0".into()).unwrap();
    let mut device = EvdevDeviceAggregate::new(path, "Test Keyboard".into());

    let result = service.can_capture(&device);
    assert!(matches!(result, Err(DomainError::ConstraintViolation(_))));

    let fd = DeviceFdVO::new(3).unwrap();
    device.open(fd).unwrap();
    let result = service.can_capture(&device);
    assert!(matches!(result, Err(DomainError::ConstraintViolation(_))));

    device.grab().unwrap();
    assert!(service.can_capture(&device).is_ok());
}

#[test]
fn test_evdev_capture_service_validate_event_code() {
    let service = EvdevCaptureService::new();

    let key_event = EventCodeVO::new(30);
    assert!(service.validate_event_code(key_event).is_ok());

    let non_key_event = EventCodeVO::new(0x0400);
    let result = service.validate_event_code(non_key_event);
    assert!(matches!(result, Err(DomainError::ConstraintViolation(_))));
}

#[test]
fn test_uinput_injection_service_can_inject() {
    let service = UinputInjectionService::new();

    let mut device = UinputDeviceAggregate::new("Virtual Keyboard".into());

    let result = service.can_inject(&device);
    assert!(matches!(result, Err(DomainError::ConstraintViolation(_))));

    let fd = DeviceFdVO::new(4).unwrap();
    device.open(fd).unwrap();
    let result = service.can_inject(&device);
    assert!(matches!(result, Err(DomainError::ConstraintViolation(_))));

    device.create().unwrap();
    assert!(service.can_inject(&device).is_ok());
}

#[test]
fn test_uinput_injection_service_validate_event_code() {
    let service = UinputInjectionService::new();

    let key_event = EventCodeVO::new(30);
    assert!(service.validate_event_code(key_event).is_ok());

    let sync_event = EventCodeVO::new(0);
    assert!(service.validate_event_code(sync_event).is_ok());

    let invalid_event = EventCodeVO::new(0x0400);
    let result = service.validate_event_code(invalid_event);
    assert!(matches!(result, Err(DomainError::ConstraintViolation(_))));
}

#[test]
fn test_uinput_injection_service_validate_event_sequence() {
    let service = UinputInjectionService::new();

    let valid_seq = vec![EventCodeVO::new(30), EventCodeVO::new(30), EventCodeVO::new(0)];
    assert!(service.validate_event_sequence(&valid_seq).is_ok());

    let invalid_seq = vec![EventCodeVO::new(30), EventCodeVO::new(30)];
    let result = service.validate_event_sequence(&invalid_seq);
    assert!(matches!(result, Err(DomainError::ConstraintViolation(_))));

    let empty_seq = vec![];
    let result = service.validate_event_sequence(&empty_seq);
    assert!(matches!(result, Err(DomainError::ConstraintViolation(_))));
}

#[test]
fn key_event_code_boundary() {
    assert!(EventCodeVO::new(0x02ff).is_key_event());
    assert!(!EventCodeVO::new(0x0300).is_key_event());
}

#[test]
fn test_event_code_vo_creation() {
    let code = EventCodeVO::new(30);
    assert_eq!(code.as_raw(), 30);
    assert!(code.is_key_event());
    assert!(!code.is_sync_event());
}

#[test]
fn test_event_code_vo_sync_event() {
    let sync = EventCodeVO::new(0);
    assert!(sync.is_sync_event());
}

#[test]
fn test_event_code_vo_from_u16() {
    let code: EventCodeVO = 30u16.into();
    assert_eq!(code.as_raw(), 30);
}

#[test]
fn test_device_fd_vo_creation() {
    let fd = DeviceFdVO::new(3).unwrap();
    assert_eq!(fd.as_raw_fd(), 3);
    assert!(fd.is_valid());
}

#[test]
fn test_device_fd_vo_invalid() {
    let result = DeviceFdVO::new(-1);
    assert!(matches!(result, Err(DomainError::InvalidDeviceHandle(_))));
}

#[test]
fn test_device_fd_vo_standard_streams() {
    let stdin = DeviceFdVO::new(0).unwrap();
    assert!(stdin.is_stdin());
    assert!(!stdin.is_stdout());

    let stdout = DeviceFdVO::new(1).unwrap();
    assert!(stdout.is_stdout());
    assert!(!stdout.is_stderr());

    let stderr = DeviceFdVO::new(2).unwrap();
    assert!(stderr.is_stderr());
    assert!(!stderr.is_stdin());
}

#[test]
fn test_device_fd_vo_try_from() {
    let fd: DeviceFdVO = 3i32.try_into().unwrap();
    assert_eq!(fd.as_raw_fd(), 3);

    let result: Result<DeviceFdVO, _> = (-1i32).try_into();
    assert!(result.is_err());
}
