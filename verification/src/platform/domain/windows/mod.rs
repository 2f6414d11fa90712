//! Windows-specific domain models: raw input devices, low-level keyboard
//! hooks, virtual key codes and scan codes.

pub mod aggregates;
pub mod services;
pub mod value_objects;

pub use aggregates::{HookCallbackAggregate, RawInputDeviceAggregate};
pub use services::{LowLevelHookService, SendInputService};
pub use value_objects::{ScanCodeVO, VirtualKeyCodeVO};
