//! Platform-agnostic domain models shared by the Linux and Windows layers.

pub mod aggregates;
pub mod repositories;
pub mod value_objects;

pub use aggregates::PlatformDeviceAggregate;
pub use repositories::PlatformDeviceRepository;
pub use value_objects::{DeviceHandleVO, DevicePathVO};
