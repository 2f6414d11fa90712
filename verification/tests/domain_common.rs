use keyrx_daemon::platform::domain::common::repositories::DeviceInfo;
use keyrx_daemon::platform::domain::{
    DeviceHandleVO, DevicePathVO, DomainError, PlatformDeviceAggregate, PlatformDeviceRepository,
};

#[test]
fn test_platform_device_aggregate_creation() {
    let path = DevicePathVO::new("/dev/input/event0".into()).unwrap();
    let device = PlatformDeviceAggregate::new(path.clone(), "Test Device".into());

    assert_eq!(device.path(), &path);
    assert_eq!(device.name(), "Test Device");
    assert!(!device.is_initialized());
    assert!(!device.is_grabbed());
    assert_eq!(device.version(), 0);
}

#[test]
fn test_platform_device_aggregate_initialize() {
    let path = DevicePathVO::new("/dev/input/event0".into()).unwrap();
    let mut device = PlatformDeviceAggregate::new(path, "Test Device".into());

    let handle = DeviceHandleVO::new(42).unwrap();
    device.initialize(handle).unwrap();

    assert!(device.is_initialized());
    assert_eq!(device.handle(), Some(handle));
    assert_eq!(device.version(), 1);
}

#[test]
fn test_platform_device_aggregate_double_initialize() {
    let path = DevicePathVO::new("/dev/input/event0".into()).unwrap();
    let mut device = PlatformDeviceAggregate::new(path, "Test Device".into());

    let handle = DeviceHandleVO::new(42).unwrap();
    device.initialize(handle).unwrap();

    let result = device.initialize(handle);
    assert!(matches!(result, Err(DomainError::ConstraintViolation(_))));
}

#[test]
fn test_platform_device_aggregate_grab_release() {
    let path = DevicePathVO::new("/dev/input/event0".into()).unwrap();
    let mut device = PlatformDeviceAggregate::new(path, "Test Device".into());

    let handle = DeviceHandleVO::new(42).unwrap();
    device.initialize(handle).unwrap();

    device.grab().unwrap();
    assert!(device.is_grabbed());
    assert_eq!(device.version(), 2);

    device.release().unwrap();
    assert!(!device.is_grabbed());
    assert_eq!(device.version(), 3);
}

#[test]
fn test_platform_device_aggregate_grab_without_init() {
    let path = DevicePathVO::new("/dev/input/event0".into()).unwrap();
    let mut device = PlatformDeviceAggregate::new(path, "Test Device".into());

    let result = device.grab();
    assert!(matches!(result, Err(DomainError::ConstraintViolation(_))));
}

#[test]
fn test_platform_device_aggregate_shutdown() {
    let path = DevicePathVO::new("/dev/input/event0".into()).unwrap();
    let mut device = PlatformDeviceAggregate::new(path, "Test Device".into());

    let handle = DeviceHandleVO::new(42).unwrap();
    device.initialize(handle).unwrap();
    device.grab().unwrap();

    device.shutdown().unwrap();
    assert!(!device.is_initialized());
    assert!(!device.is_grabbed());
    assert_eq!(device.handle(), None);
}

#[test]
fn test_platform_device_aggregate_validation() {
    let path = DevicePathVO::new("/dev/input/event0".into()).unwrap();
    let mut device = PlatformDeviceAggregate::new(path, "Test Device".into());

    assert!(device.validate().is_ok());

    let handle = DeviceHandleVO::new(42).unwrap();
    device.initialize(handle).unwrap();
    assert!(device.validate().is_ok());

    device.grab().unwrap();
    assert!(device.validate().is_ok());
}

#[test]
fn grab_then_release_returns_to_initialized_state_two_versions_on() {
    let path = DevicePathVO::new("/dev/input/event3".into()).unwrap();
    let mut device = PlatformDeviceAggregate::new(path, "Kbd".into());
    device.initialize(DeviceHandleVO::new(7).unwrap()).unwrap();
    let before = device.version();
    device.grab().unwrap();
    device.release().unwrap();
    assert!(device.is_initialized());
    assert!(!device.is_grabbed());
    assert_eq!(device.version(), before + 2);
    assert!(matches!(device.release(), Err(DomainError::ConstraintViolation(_))));
    assert_eq!(device.version(), before + 2);
}

#[test]
fn failed_operations_leave_the_device_unchanged() {
    let path = DevicePathVO::new("/dev/input/event3".into()).unwrap();
    let mut device = PlatformDeviceAggregate::new(path, "Kbd".into());
    assert!(device.shutdown().is_err());
    assert!(device.release().is_err());
    assert_eq!(device.version(), 0);
    assert!(!device.is_initialized());
}

#[test]
fn test_device_path_vo_creation() {
    let path = DevicePathVO::new("/dev/input/event0".into()).unwrap();
    assert_eq!(path.as_str(), "/dev/input/event0");
}

#[test]
fn test_device_path_vo_empty_path() {
    let result = DevicePathVO::new("".into());
    assert!(matches!(result, Err(DomainError::InvalidDevicePath(_))));
}

#[test]
fn test_device_path_vo_is_evdev_path() {
    let evdev = DevicePathVO::new("/dev/input/event0".into()).unwrap();
    assert!(evdev.is_evdev_path());

    let non_evdev = DevicePathVO::new("/dev/null".into()).unwrap();
    assert!(!non_evdev.is_evdev_path());
}

#[test]
fn test_device_path_vo_is_windows_device_path() {
    let windows_path = DevicePathVO::new(r"\\.\PhysicalDrive0".into()).unwrap();
    assert!(windows_path.is_windows_device_path());

    let normal_path = DevicePathVO::new(r"C:\Windows".into()).unwrap();
    assert!(!normal_path.is_windows_device_path());
}

#[test]
fn device_path_text_is_the_path() {
    let path = DevicePathVO::new(r"\\?\HID#VID_1".into()).unwrap();
    assert!(path.is_windows_device_path());
    assert_eq!(path.to_string(), r"\\?\HID#VID_1");
}

#[test]
fn test_device_handle_vo_creation() {
    let handle = DeviceHandleVO::new(42).unwrap();
    assert_eq!(handle.as_raw(), 42);
    assert!(handle.is_valid());
}

#[test]
fn test_device_handle_vo_invalid() {
    let result = DeviceHandleVO::new(-1);
    assert!(matches!(result, Err(DomainError::InvalidDeviceHandle(_))));
}

#[test]
fn test_device_handle_vo_zero() {
    let handle = DeviceHandleVO::new(0).unwrap();
    assert_eq!(handle.as_raw(), 0);
    assert!(handle.is_valid());
}

struct MockPlatformDeviceRepository {
    devices: Vec<(DevicePathVO, DeviceInfo)>,
}

impl MockPlatformDeviceRepository {
    fn new() -> Self {
        Self { devices: Vec::new() }
    }

    fn add_device(&mut self, path: DevicePathVO, info: DeviceInfo) {
        self.devices.push((path, info));
    }
}

impl PlatformDeviceRepository for MockPlatformDeviceRepository {
    fn list_devices(&self) -> Result<Vec<PlatformDeviceAggregate>, DomainError> {
        Ok(self
            .devices
            .iter()
            .map(|(path, info)| PlatformDeviceAggregate::new(path.clone(), info.name.clone()))
            .collect())
    }

    fn find_by_path(&self, path: &DevicePathVO) -> Result<PlatformDeviceAggregate, DomainError> {
        self.devices
            .iter()
            .find(|(p, _)| p == path)
            .map(|(p, info)| PlatformDeviceAggregate::new(p.clone(), info.name.clone()))
            .ok_or_else(|| DomainError::DeviceNotFound(format!("Device not found: {}", path.as_str())))
    }

    fn path_exists(&self, path: &DevicePathVO) -> bool {
        self.devices.iter().any(|(p, _)| p == path)
    }

    fn get_device_info(&self, path: &DevicePathVO) -> Result<DeviceInfo, DomainError> {
        self.devices
            .iter()
            .find(|(p, _)| p == path)
            .map(|(_, info)| info.clone())
            .ok_or_else(|| DomainError::DeviceNotFound(format!("Device not found: {}", path.as_str())))
    }
}

#[test]
fn test_mock_platform_device_repository() {
    let mut repo = MockPlatformDeviceRepository::new();

    let path = DevicePathVO::new("/dev/input/event0".into()).unwrap();
    let info = DeviceInfo { name: "Test Keyboard".into(), vendor_id: 0x1234, product_id: 0x5678 };

    repo.add_device(path.clone(), info.clone());

    assert!(repo.path_exists(&path));

    let device = repo.find_by_path(&path).unwrap();
    assert_eq!(device.path(), &path);
    assert_eq!(device.name(), "Test Keyboard");

    let device_info = repo.get_device_info(&path).unwrap();
    assert_eq!(device_info.name, "Test Keyboard");
    assert_eq!(device_info.vendor_id, 0x1234);
    assert_eq!(device_info.product_id, 0x5678);

    let devices = repo.list_devices().unwrap();
    assert_eq!(devices.len(), 1);
}

#[test]
fn test_mock_platform_device_repository_not_found() {
    let repo = MockPlatformDeviceRepository::new();
    let path = DevicePathVO::new("/dev/input/event99".into()).unwrap();

    assert!(!repo.path_exists(&path));

    let result = repo.find_by_path(&path);
    assert!(matches!(result, Err(DomainError::DeviceNotFound(_))));

    let result = repo.get_device_info(&path);
    assert!(matches!(result, Err(DomainError::DeviceNotFound(_))));
}

#[test]
fn test_domain_error_display() {
    let err = DomainError::InvalidDevicePath("/dev/invalid".into());
    assert_eq!(err.to_string(), "Invalid device path: /dev/invalid");

    let err = DomainError::PermissionDenied("Insufficient privileges".into());
    assert_eq!(err.to_string(), "Permission denied: Insufficient privileges");

    let err = DomainError::ConstraintViolation("Test violation".into());
    assert_eq!(err.to_string(), "Constraint violation: Test violation");
}

#[test]
fn domain_error_text_of_each_variant() {
    assert_eq!(DomainError::InvalidDeviceHandle("h".into()).to_string(), "Invalid device handle: h");
    assert_eq!(DomainError::DeviceNotFound("d".into()).to_string(), "Device not found: d");
    assert_eq!(DomainError::InitializationFailed("i".into()).to_string(), "Initialization failed: i");
    assert_eq!(DomainError::InjectionFailed("j".into()).to_string(), "Injection failed: j");
}
