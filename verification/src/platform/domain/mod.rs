//! Domain model of the platform layer: value objects, aggregates with their
//! lifecycle state machines, and domain services that check readiness.

pub mod common;
pub mod linux;
pub mod windows;

pub use common::{DeviceHandleVO, DevicePathVO, PlatformDeviceAggregate, PlatformDeviceRepository};
pub use linux::{DeviceFdVO, EventCodeVO, EvdevCaptureService, EvdevDeviceAggregate, UinputDeviceAggregate,
    UinputInjectionService};
pub use windows::{HookCallbackAggregate, LowLevelHookService, RawInputDeviceAggregate, ScanCodeVO,
    SendInputService, VirtualKeyCodeVO};

use vstd::prelude::*;
use crate::text::concat2;

verus! {

/// Domain error type for the platform domain.
#[derive(Debug, Clone, PartialEq, Eq)]
pub enum DomainError {
    /// Invalid device path
    InvalidDevicePath(String),
    /// Invalid device handle
    InvalidDeviceHandle(String),
    /// Device not found
    DeviceNotFound(String),
    /// Permission denied
    PermissionDenied(String),
    /// Initialization failed
    InitializationFailed(String),
    /// Injection failed
    InjectionFailed(String),
    /// Constraint violation
    ConstraintViolation(String),
}

/// The text a domain error is displayed as.
pub open spec fn domain_error_text(e: DomainError) -> Seq<char> {
    match e {
        DomainError::InvalidDevicePath(m) => "Invalid device path: "@ + m@,
        DomainError::InvalidDeviceHandle(m) => "Invalid device handle: "@ + m@,
        DomainError::DeviceNotFound(m) => "Device not found: "@ + m@,
        DomainError::PermissionDenied(m) => "Permission denied: "@ + m@,
        DomainError::InitializationFailed(m) => "Initialization failed: "@ + m@,
        DomainError::InjectionFailed(m) => "Injection failed: "@ + m@,
        DomainError::ConstraintViolation(m) => "Constraint violation: "@ + m@,
    }
}

/// A result that failed with a constraint violation carrying `msg`.
pub open spec fn is_violation(r: Result<(), DomainError>, msg: Seq<char>) -> bool {
    r matches Err(DomainError::ConstraintViolation(m)) && m@ == msg
}

/// A result that failed with an invalid-handle error carrying `msg`.
pub open spec fn is_invalid_handle<T>(r: Result<T, DomainError>, msg: Seq<char>) -> bool {
    r matches Err(DomainError::InvalidDeviceHandle(m)) && m@ == msg
}

impl DomainError {
    /// Renders the error as human-readable text.
    pub fn to_string(&self) -> (r: String)
        ensures
            r@ == domain_error_text(*self),
    {
        match self {
            DomainError::InvalidDevicePath(m) => concat2("Invalid device path: ", m.as_str()),
            DomainError::InvalidDeviceHandle(m) => concat2("Invalid device handle: ", m.as_str()),
            DomainError::DeviceNotFound(m) => concat2("Device not found: ", m.as_str()),
            DomainError::PermissionDenied(m) => concat2("Permission denied: ", m.as_str()),
            DomainError::InitializationFailed(m) => concat2("Initialization failed: ", m.as_str()),
            DomainError::InjectionFailed(m) => concat2("Injection failed: ", m.as_str()),
            DomainError::ConstraintViolation(m) => concat2("Constraint violation: ", m.as_str()),
        }
    }
}

/// Builds a constraint violation error carrying `msg`.
pub fn violation(msg: &str) -> (r: Result<(), DomainError>)
    ensures
        is_violation(r, msg@),
{
    Err(DomainError::ConstraintViolation(String::from_str(msg)))
}

} // verus!
