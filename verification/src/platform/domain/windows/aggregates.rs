//! Windows aggregates: raw input device registrations and low-level
//! keyboard hooks.

use vstd::prelude::*;
use crate::platform::domain::{is_invalid_handle, is_violation, violation, DomainError};

verus! {

/// Abstract state of a [`RawInputDeviceAggregate`].
pub struct RawInputDeviceView {
    pub name: Seq<char>,
    pub registered: bool,
    pub background_capture: bool,
    pub version: nat,
}

impl RawInputDeviceView {
    /// The state after a successful `register`.
    pub open spec fn registered_with(self, background_capture: bool) -> Self {
        RawInputDeviceView {
            registered: true,
            background_capture,
            version: self.version + 1,
            ..self
        }
    }

    /// The state after a successful `unregister`.
    pub open spec fn unregistered_now(self) -> Self {
        RawInputDeviceView {
            registered: false,
            background_capture: false,
            version: self.version + 1,
            ..self
        }
    }
}

/// Raw input device aggregate root: a Windows Raw Input registration.
pub struct RawInputDeviceAggregate {
    name: String,
    registered: bool,
    background_capture: bool,
    version: u64,
}

impl View for RawInputDeviceAggregate {
    type V = RawInputDeviceView;

    closed spec fn view(&self) -> RawInputDeviceView {
        RawInputDeviceView {
            name: self.name@,
            registered: self.registered,
            background_capture: self.background_capture,
            version: self.version as nat,
        }
    }
}

impl RawInputDeviceAggregate {
    /// Creates an unregistered device at version 0.
    pub fn new(name: String) -> (r: Self)
        ensures
            r@ == (RawInputDeviceView {
                name: name@,
                registered: false,
                background_capture: false,
                version: 0,
            }),
    {
        RawInputDeviceAggregate { name, registered: false, background_capture: false, version: 0 }
    }

    /// The device name.
    pub fn name(&self) -> (r: &str)
        ensures
            r@ == self@.name,
    {
        self.name.as_str()
    }

    /// Whether the device is registered.
    pub fn is_registered(&self) -> (r: bool)
        ensures
            r == self@.registered,
    {
        self.registered
    }

    /// Whether background capture (RIDEV_INPUTSINK) is enabled.
    pub fn is_background_capture(&self) -> (r: bool)
        ensures
            r == self@.background_capture,
    {
        self.background_capture
    }

    /// The version counter, bumped by every successful state change.
    pub fn version(&self) -> (r: u64)
        ensures
            r == self@.version,
    {
        self.version
    }

    /// Registers the device for raw input.
    pub fn register(&mut self, background_capture: bool) -> (r: Result<(), DomainError>)
        requires
            old(self)@.version < u64::MAX || old(self)@.registered,
        ensures
            old(self)@.registered ==> is_violation(r, "Device already registered"@)
                && final(self)@ == old(self)@,
            !old(self)@.registered ==> r is Ok && final(self)@ == old(self)@.registered_with(
                background_capture,
            ),
            final(self)@.background_capture ==> final(self)@.registered || old(
                self,
            )@.background_capture,
    {
        if self.registered {
            return violation("Device already registered");
        }
        self.registered = true;
        self.background_capture = background_capture;
        self.version = self.version + 1;
        Ok(())
    }

    /// Unregisters the device, turning background capture off.
    pub fn unregister(&mut self) -> (r: Result<(), DomainError>)
        requires
            old(self)@.version < u64::MAX || !old(self)@.registered,
        ensures
            !old(self)@.registered ==> is_violation(r, "Device not registered"@) && final(self)@
                == old(self)@,
            old(self)@.registered ==> r is Ok && final(self)@ == old(self)@.unregistered_now(),
    {
        if !self.registered {
            return violation("Device not registered");
        }
        self.registered = false;
        self.background_capture = false;
        self.version = self.version + 1;
        Ok(())
    }

    /// Checks that the device has a name.
    pub fn validate(&self) -> (r: Result<(), DomainError>)
        ensures
            r is Ok <==> self@.name.len() > 0,
            r is Err ==> is_violation(r, "Device name cannot be empty"@),
    {
        if self.name.as_str().unicode_len() == 0 {
            return violation("Device name cannot be empty");
        }
        Ok(())
    }
}

/// Abstract state of a [`HookCallbackAggregate`].
pub struct HookCallbackView {
    pub handle: Option<isize>,
    pub installed: bool,
    pub suppress_events: bool,
    pub version: nat,
}

impl HookCallbackView {
    /// The consistency rules `validate` checks: an installed hook has a
    /// handle, and a handle is never null.
    pub open spec fn wf(self) -> bool {
        &&& self.installed ==> self.handle is Some
        &&& self.handle matches Some(h) ==> h != 0
    }

    /// The state after a successful `enable_suppression`.
    pub open spec fn suppressing(self) -> Self {
        HookCallbackView { suppress_events: true, version: self.version + 1, ..self }
    }

    /// The state after a successful `disable_suppression`.
    pub open spec fn passing_through(self) -> Self {
        HookCallbackView { suppress_events: false, version: self.version + 1, ..self }
    }
}

/// Hook callback aggregate root: a Windows low-level keyboard hook that
/// captures and may suppress events.
pub struct HookCallbackAggregate {
    handle: Option<isize>,
    installed: bool,
    suppress_events: bool,
    version: u64,
}

impl View for HookCallbackAggregate {
    type V = HookCallbackView;

    closed spec fn view(&self) -> HookCallbackView {
        HookCallbackView {
            handle: self.handle,
            installed: self.installed,
            suppress_events: self.suppress_events,
            version: self.version as nat,
        }
    }
}

impl HookCallbackAggregate {
    /// Creates an uninstalled hook that suppresses events, at version 0.
    pub fn new() -> (r: Self)
        ensures
            r@ == (HookCallbackView {
                handle: None,
                installed: false,
                suppress_events: true,
                version: 0,
            }),
            r@.wf(),
    {
        HookCallbackAggregate { handle: None, installed: false, suppress_events: true, version: 0 }
    }

    /// The hook handle, if installed.
    pub fn handle(&self) -> (r: Option<isize>)
        ensures
            r == self@.handle,
    {
        self.handle
    }

    /// Whether the hook is installed.
    pub fn is_installed(&self) -> (r: bool)
        ensures
            r == self@.installed,
    {
        self.installed
    }

    /// Whether intercepted key events are suppressed.
    pub fn is_suppressing_events(&self) -> (r: bool)
        ensures
            r == self@.suppress_events,
    {
        self.suppress_events
    }

    /// The version counter, bumped by every successful state change.
    pub fn version(&self) -> (r: u64)
        ensures
            r == self@.version,
    {
        self.version
    }

    /// Installs the hook with a non-null handle.
    pub fn install(&mut self, handle: isize, suppress: bool) -> (r: Result<(), DomainError>)
        requires
            old(self)@.version < u64::MAX || old(self)@.installed || handle == 0,
        ensures
            old(self)@.installed ==> is_violation(r, "Hook already installed"@) && final(self)@
                == old(self)@,
            !old(self)@.installed && handle == 0 ==> is_invalid_handle(
                r,
                "Hook handle cannot be null"@,
            ) && final(self)@ == old(self)@,
            !old(self)@.installed && handle != 0 ==> r is Ok && final(self)@ == (
            HookCallbackView {
                handle: Some(handle),
                installed: true,
                suppress_events: suppress,
                version: old(self)@.version + 1,
            }),
            old(self)@.wf() ==> final(self)@.wf(),
    {
        if self.installed {
            return violation("Hook already installed");
        }
        if handle == 0 {
            return Err(DomainError::InvalidDeviceHandle(String::from_str("Hook handle cannot be null")));
        }
        self.handle = Some(handle);
        self.installed = true;
        self.suppress_events = suppress;
        self.version = self.version + 1;
        Ok(())
    }

    /// Uninstalls the hook; the suppression setting is kept.
    pub fn uninstall(&mut self) -> (r: Result<(), DomainError>)
        requires
            old(self)@.version < u64::MAX || !old(self)@.installed,
        ensures
            !old(self)@.installed ==> is_violation(r, "Hook not installed"@) && final(self)@
                == old(self)@,
            old(self)@.installed ==> r is Ok && final(self)@ == (HookCallbackView {
                handle: None,
                installed: false,
                version: old(self)@.version + 1,
                ..old(self)@
            }),
            old(self)@.wf() ==> final(self)@.wf(),
    {
        if !self.installed {
            return violation("Hook not installed");
        }
        self.handle = None;
        self.installed = false;
        self.version = self.version + 1;
        Ok(())
    }

    /// Turns event suppression on.
    pub fn enable_suppression(&mut self) -> (r: Result<(), DomainError>)
        requires
            old(self)@.version < u64::MAX || !old(self)@.installed || old(self)@.suppress_events,
        ensures
            !old(self)@.installed ==> is_violation(r, "Hook not installed"@) && final(self)@
                == old(self)@,
            old(self)@.installed && old(self)@.suppress_events ==> is_violation(
                r,
                "Suppression already enabled"@,
            ) && final(self)@ == old(self)@,
            old(self)@.installed && !old(self)@.suppress_events ==> r is Ok && final(self)@ == old(
                self,
            )@.suppressing(),
            old(self)@.wf() ==> final(self)@.wf(),
    {
        if !self.installed {
            return violation("Hook not installed");
        }
        if self.suppress_events {
            return violation("Suppression already enabled");
        }
        self.suppress_events = true;
        self.version = self.version + 1;
        Ok(())
    }

    /// Turns event suppression off.
    pub fn disable_suppression(&mut self) -> (r: Result<(), DomainError>)
        requires
            old(self)@.version < u64::MAX || !old(self)@.installed || !old(self)@.suppress_events,
        ensures
            !old(self)@.installed ==> is_violation(r, "Hook not installed"@) && final(self)@
                == old(self)@,
            old(self)@.installed && !old(self)@.suppress_events ==> is_violation(
                r,
                "Suppression already disabled"@,
            ) && final(self)@ == old(self)@,
            old(self)@.installed && old(self)@.suppress_events ==> r is Ok && final(self)@ == old(
                self,
            )@.passing_through(),
            old(self)@.wf() ==> final(self)@.wf(),
    {
        if !self.installed {
            return violation("Hook not installed");
        }
        if !self.suppress_events {
            return violation("Suppression already disabled");
        }
        self.suppress_events = false;
        self.version = self.version + 1;
        Ok(())
    }

    /// Checks the hook state against the aggregate's consistency rules.
    pub fn validate(&self) -> (r: Result<(), DomainError>)
        ensures
            r is Ok <==> self@.wf(),
            self@.installed && self@.handle is None ==> is_violation(
                r,
                "Installed hook must have a handle"@,
            ),
            !(self@.installed && self@.handle is None) && self@.handle == Some(0isize)
                ==> is_violation(r, "Hook handle cannot be null"@),
    {
        if self.installed && self.handle.is_none() {
            return violation("Installed hook must have a handle");
        }
        if let Some(handle) = self.handle {
            if handle == 0 {
                return violation("Hook handle cannot be null");
            }
        }
        Ok(())
    }
}

impl Default for HookCallbackAggregate {
    fn default() -> (r: Self)
        ensures
            r@ == (HookCallbackView {
                handle: None,
                installed: false,
                suppress_events: true,
                version: 0,
            }),
    {
        HookCallbackAggregate::new()
    }
}

/// Registering a raw input device and unregistering it again leaves it
/// unregistered without background capture, two versions on.
pub proof fn law_register_unregister_round_trip(v: RawInputDeviceView, background_capture: bool)
    requires
        !v.registered,
    ensures
        v.registered_with(background_capture).unregistered_now() == (RawInputDeviceView {
            background_capture: false,
            version: v.version + 2,
            ..v
        }),
        !v.background_capture ==> v.registered_with(background_capture).unregistered_now()
            == (RawInputDeviceView { version: v.version + 2, ..v }),
{
}

/// Turning suppression off and on again (or on and off) leaves a hook as
/// it was, two versions on, and keeps it consistent.
pub proof fn law_suppression_toggle_round_trip(v: HookCallbackView)
    requires
        v.installed,
        v.wf(),
    ensures
        v.suppress_events ==> v.passing_through().suppressing() == (HookCallbackView {
            version: v.version + 2,
            ..v
        }),
        !v.suppress_events ==> v.suppressing().passing_through() == (HookCallbackView {
            version: v.version + 2,
            ..v
        }),
        v.suppressing().wf() && v.passing_through().wf(),
{
}

} // verus!
