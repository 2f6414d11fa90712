//! Linux domain services: readiness checks for capture and injection.

use vstd::prelude::*;
use super::aggregates::{EvdevDeviceAggregate, UinputDeviceAggregate};
use super::value_objects::EventCodeVO;
use crate::platform::domain::{is_violation, violation, DomainError};

verus! {

/// Evdev capture service: decides whether a device may capture events and
/// which event codes capture accepts.
pub struct EvdevCaptureService;

impl EvdevCaptureService {
    /// Creates the service.
    pub fn new() -> (r: Self) {
        EvdevCaptureService
    }

    /// Checks that a device is ready for capture: open, grabbed and valid.
    pub fn can_capture(&self, device: &EvdevDeviceAggregate) -> (r: Result<(), DomainError>)
        ensures
            !device@.initialized ==> is_violation(r, "Device not initialized"@),
            device@.initialized && !device@.grabbed ==> is_violation(r, "Device not grabbed"@),
            r is Ok <==> device@.initialized && device@.grabbed && device@.wf(),
    {
        if !device.is_initialized() {
            return violation("Device not initialized");
        }
        if !device.is_grabbed() {
            return violation("Device not grabbed");
        }
        device.validate()
    }

    /// Accepts key event codes only.
    pub fn validate_event_code(&self, code: EventCodeVO) -> (r: Result<(), DomainError>)
        ensures
            r is Ok <==> code@ < 0x0300,
            r is Err ==> is_violation(r, "Only key events are supported"@),
    {
        if !code.is_key_event() {
            return violation("Only key events are supported");
        }
        Ok(())
    }
}

impl Default for EvdevCaptureService {
    fn default() -> (r: Self) {
        EvdevCaptureService::new()
    }
}

/// Uinput injection service: decides whether a device may inject events and
/// which event codes and sequences injection accepts.
pub struct UinputInjectionService;

impl UinputInjectionService {
    /// Creates the service.
    pub fn new() -> (r: Self) {
        UinputInjectionService
    }

    /// Checks that a device is ready for injection: open, created and valid.
    pub fn can_inject(&self, device: &UinputDeviceAggregate) -> (r: Result<(), DomainError>)
        ensures
            !device@.initialized ==> is_violation(r, "Device not initialized"@),
            device@.initialized && !device@.created ==> is_violation(r, "Device not created"@),
            r is Ok <==> device@.initialized && device@.created && device@.wf(),
    {
        if !device.is_initialized() {
            return violation("Device not initialized");
        }
        if !device.is_created() {
            return violation("Device not created");
        }
        device.validate()
    }

    /// Accepts key and sync event codes only.
    pub fn validate_event_code(&self, code: EventCodeVO) -> (r: Result<(), DomainError>)
        ensures
            r is Ok <==> (code@ < 0x0300 || code@ == 0),
            r is Err ==> is_violation(r, "Only key and sync events are supported"@),
    {
        if !code.is_key_event() && !code.is_sync_event() {
            return violation("Only key and sync events are supported");
        }
        Ok(())
    }

    /// Accepts a non-empty event sequence that ends with a sync event.
    pub fn validate_event_sequence(&self, codes: &[EventCodeVO]) -> (r: Result<(), DomainError>)
        ensures
            codes@.len() == 0 ==> is_violation(r, "Event sequence cannot be empty"@),
            codes@.len() > 0 && codes@.last()@ != 0 ==> is_violation(
                r,
                "Event sequence must end with sync event"@,
            ),
            r is Ok <==> codes@.len() > 0 && codes@.last()@ == 0,
    {
        if codes.len() == 0 {
            return violation("Event sequence cannot be empty");
        }
        let last = codes[codes.len() - 1];
        if !last.is_sync_event() {
            return violation("Event sequence must end with sync event");
        }
        Ok(())
    }
}

impl Default for UinputInjectionService {
    fn default() -> (r: Self) {
        UinputInjectionService::new()
    }
}

} // verus!
