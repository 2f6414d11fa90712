//! Windows domain services: readiness checks for hooks and validation of
//! key codes and key sequences for injection.

use vstd::prelude::*;
use super::aggregates::HookCallbackAggregate;
use super::value_objects::{is_modifier_vk, ScanCodeVO, VirtualKeyCodeVO};
use crate::platform::domain::{is_violation, violation, DomainError};

verus! {

/// Low-level hook service: decides whether a hook may capture or suppress
/// events and which codes it processes.
pub struct LowLevelHookService;

impl LowLevelHookService {
    /// Creates the service.
    pub fn new() -> (r: Self) {
        LowLevelHookService
    }

    /// Checks that a hook is installed and valid.
    pub fn can_capture(&self, hook: &HookCallbackAggregate) -> (r: Result<(), DomainError>)
        ensures
            !hook@.installed ==> is_violation(r, "Hook not installed"@),
            r is Ok <==> hook@.installed && hook@.wf(),
    {
        if !hook.is_installed() {
            return violation("Hook not installed");
        }
        hook.validate()
    }

    /// Checks that a hook is installed, suppressing, and valid.
    pub fn can_suppress_events(&self, hook: &HookCallbackAggregate) -> (r: Result<(), DomainError>)
        ensures
            !hook@.installed ==> is_violation(r, "Hook not installed"@),
            hook@.installed && !hook@.suppress_events ==> is_violation(
                r,
                "Event suppression not enabled"@,
            ),
            r is Ok <==> hook@.installed && hook@.suppress_events && hook@.wf(),
    {
        if !hook.is_installed() {
            return violation("Hook not installed");
        }
        if !hook.is_suppressing_events() {
            return violation("Event suppression not enabled");
        }
        hook.validate()
    }

    /// Accepts valid virtual key codes (0x01-0xFE).
    pub fn validate_virtual_key(&self, vk: VirtualKeyCodeVO) -> (r: Result<(), DomainError>)
        ensures
            r is Ok <==> 0x01 <= vk@ <= 0xFE,
            r is Err ==> is_violation(r, "Invalid virtual key code"@),
    {
        if !vk.is_valid() {
            return violation("Invalid virtual key code");
        }
        Ok(())
    }

    /// Accepts non-zero scan codes.
    pub fn validate_scan_code(&self, scan: ScanCodeVO) -> (r: Result<(), DomainError>)
        ensures
            r is Ok <==> scan@.scan_code != 0,
            r is Err ==> is_violation(r, "Invalid scan code"@),
    {
        if !scan.is_valid() {
            return violation("Invalid scan code");
        }
        Ok(())
    }
}

impl Default for LowLevelHookService {
    fn default() -> (r: Self) {
        LowLevelHookService::new()
    }
}

/// Whether every key of `keys` is a valid virtual key code.
pub open spec fn all_valid_keys(keys: Seq<VirtualKeyCodeVO>) -> bool {
    forall|i: int| 0 <= i < keys.len() ==> 0x01 <= #[trigger] keys[i]@ <= 0xFE
}

/// Whether every key of `keys` is a modifier.
pub open spec fn all_modifier_keys(keys: Seq<VirtualKeyCodeVO>) -> bool {
    forall|i: int| 0 <= i < keys.len() ==> is_modifier_vk(#[trigger] keys[i]@)
}

/// SendInput service: validates codes and key sequences before injection.
pub struct SendInputService;

impl SendInputService {
    /// Creates the service.
    pub fn new() -> (r: Self) {
        SendInputService
    }

    /// Accepts valid virtual key codes (0x01-0xFE).
    pub fn validate_virtual_key(&self, vk: VirtualKeyCodeVO) -> (r: Result<(), DomainError>)
        ensures
            r is Ok <==> 0x01 <= vk@ <= 0xFE,
            r is Err ==> is_violation(r, "Invalid virtual key code"@),
    {
        if !vk.is_valid() {
            return violation("Invalid virtual key code");
        }
        Ok(())
    }

    /// Accepts non-zero scan codes.
    pub fn validate_scan_code(&self, scan: ScanCodeVO) -> (r: Result<(), DomainError>)
        ensures
            r is Ok <==> scan@.scan_code != 0,
            r is Err ==> is_violation(r, "Invalid scan code"@),
    {
        if !scan.is_valid() {
            return violation("Invalid scan code");
        }
        Ok(())
    }

    /// Accepts a press/release pair on one and the same valid key.
    pub fn validate_event_pair(&self, press_vk: VirtualKeyCodeVO, release_vk: VirtualKeyCodeVO) -> (r:
        Result<(), DomainError>)
        ensures
            press_vk@ != release_vk@ ==> is_violation(
                r,
                "Press and release must use the same key code"@,
            ),
            press_vk@ == release_vk@ && !(0x01 <= press_vk@ <= 0xFE) ==> is_violation(
                r,
                "Invalid virtual key code"@,
            ),
            r is Ok <==> press_vk@ == release_vk@ && 0x01 <= press_vk@ <= 0xFE,
    {
        if press_vk.as_raw() != release_vk.as_raw() {
            return violation("Press and release must use the same key code");
        }
        self.validate_virtual_key(press_vk)?;
        self.validate_virtual_key(release_vk)?;
        Ok(())
    }

    /// Accepts a non-empty sequence of valid modifier keys.
    pub fn validate_modifier_sequence(&self, keys: &[VirtualKeyCodeVO]) -> (r: Result<(), DomainError>)
        ensures
            keys@.len() == 0 ==> is_violation(r, "Modifier sequence cannot be empty"@),
            keys@.len() > 0 && !all_valid_keys(keys@) ==> is_violation(
                r,
                "Invalid virtual key code"@,
            ),
            keys@.len() > 0 && all_valid_keys(keys@) && !all_modifier_keys(keys@) ==> is_violation(
                r,
                "All keys in modifier sequence must be modifiers"@,
            ),
            r is Ok <==> keys@.len() > 0 && all_valid_keys(keys@) && all_modifier_keys(keys@),
    {
        if keys.len() == 0 {
            return violation("Modifier sequence cannot be empty");
        }
        let mut i: usize = 0;
        while i < keys.len()
            invariant
                i <= keys@.len(),
                forall|j: int| 0 <= j < i ==> 0x01 <= #[trigger] keys@[j]@ <= 0xFE,
            decreases keys@.len() - i,
        {
            let r = self.validate_virtual_key(keys[i]);
            if r.is_err() {
                return r;
            }
            i = i + 1;
        }
        let mut all_modifiers = true;
        let mut k: usize = 0;
        while k < keys.len()
            invariant
                k <= keys@.len(),
                all_modifiers == forall|j: int| 0 <= j < k ==> is_modifier_vk(#[trigger] keys@[j]@),
            decreases keys@.len() - k,
        {
            all_modifiers = all_modifiers && keys[k].is_modifier();
            k = k + 1;
        }
        if !all_modifiers {
            return violation("All keys in modifier sequence must be modifiers");
        }
        Ok(())
    }
}

impl Default for SendInputService {
    fn default() -> (r: Self) {
        SendInputService::new()
    }
}

} // verus!
