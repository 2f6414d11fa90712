//! Linux-specific domain models: evdev input devices, uinput output devices,
//! event codes and file descriptors.

pub mod aggregates;
pub mod services;
pub mod value_objects;

pub use aggregates::{EvdevDeviceAggregate, UinputDeviceAggregate};
pub use services::{EvdevCaptureService, UinputInjectionService};
pub use value_objects::{DeviceFdVO, EventCodeVO};
