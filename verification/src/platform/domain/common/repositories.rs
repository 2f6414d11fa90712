//! Repository abstraction for platform device data.

use vstd::prelude::*;
use super::aggregates::PlatformDeviceAggregate;
use super::value_objects::DevicePathVO;
use crate::platform::domain::DomainError;

verus! {

/// Device information metadata.
#[derive(Debug, Clone, PartialEq, Eq)]
pub struct DeviceInfo {
    /// Device name
    pub name: String,
    /// Vendor ID
    pub vendor_id: u16,
    /// Product ID
    pub product_id: u16,
}

/// Repository for platform device data, implemented by each platform's
/// device enumeration.
pub trait PlatformDeviceRepository {
    /// Lists all available input devices.
    fn list_devices(&self) -> Result<Vec<PlatformDeviceAggregate>, DomainError>;

    /// Finds a device by path.
    fn find_by_path(&self, path: &DevicePathVO) -> Result<PlatformDeviceAggregate, DomainError>;

    /// Checks if a device exists at the given path.
    fn path_exists(&self, path: &DevicePathVO) -> bool;

    /// Gets device metadata (name, vendor ID, product ID).
    fn get_device_info(&self, path: &DevicePathVO) -> Result<DeviceInfo, DomainError>;
}

} // verus!
