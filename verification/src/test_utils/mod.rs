//! Support for end-to-end tests with virtual devices: the errors of
//! virtual device operations, with messages that say how to fix them, and
//! the helpers of event capture.

pub mod output_capture;

use vstd::prelude::*;
use crate::keys::{KeyCode, KeyEvent};
use crate::text::{dec, owned, concat2, push_radix};
use crate::platform::common::io_error_message;

verus! {

/// Errors that can occur during virtual device operations.
#[derive(Debug)]
pub enum VirtualDeviceError {
    /// Permission denied when accessing uinput or evdev devices.
    PermissionDenied {
        /// Description of what operation failed.
        message: String,
        /// Instructions for fixing the permission issue.
        fix_instruction: String,
    },
    /// The device was not found within the timeout.
    NotFound {
        /// Name of the device being searched for.
        name: String,
        /// How long the search went on, in milliseconds.
        timeout_ms: u64,
    },
    /// An operation timed out waiting for expected events.
    Timeout {
        /// What operation timed out.
        operation: String,
        /// How long it waited, in milliseconds.
        timeout_ms: u64,
    },
    /// I/O error during a device operation.
    Io(std::io::Error),
    /// Failed to create the virtual device.
    CreationFailed {
        /// Description of what went wrong.
        message: String,
    },
}

/// The text of a virtual device error other than an I/O error.
pub open spec fn virtual_device_error_message(e: VirtualDeviceError) -> Seq<char> {
    match e {
        VirtualDeviceError::PermissionDenied { message, fix_instruction } => "permission denied: "@
            + message@ + "\n\nFix: "@ + fix_instruction@,
        VirtualDeviceError::NotFound { name, timeout_ms } => "device not found: "@ + name@
            + " (searched for "@ + dec(timeout_ms as nat) + "ms)"@,
        VirtualDeviceError::Timeout { operation, timeout_ms } => "timeout after "@ + dec(
            timeout_ms as nat,
        ) + "ms waiting for "@ + operation@,
        VirtualDeviceError::Io(_) => "I/O error: "@,
        VirtualDeviceError::CreationFailed { message } => "failed to create virtual device: "@
            + message@,
    }
}

impl VirtualDeviceError {
    /// Renders the error as human-readable text; for I/O errors the text
    /// starts with `I/O error: ` followed by the I/O error's own message.
    pub fn to_string(&self) -> (r: String)
        ensures
            !(*self is Io) ==> r@ == virtual_device_error_message(*self),
            *self is Io ==> "I/O error: "@.is_prefix_of(r@),
    {
        match self {
            VirtualDeviceError::PermissionDenied { message, fix_instruction } => {
                let mut r = concat2("permission denied: ", message.as_str());
                r.append("\n\nFix: ");
                r.append(fix_instruction.as_str());
                r
            },
            VirtualDeviceError::NotFound { name, timeout_ms } => {
                let mut r = concat2("device not found: ", name.as_str());
                r.append(" (searched for ");
                push_radix(&mut r, *timeout_ms, 10);
                r.append("ms)");
                r
            },
            VirtualDeviceError::Timeout { operation, timeout_ms } => {
                let mut r = owned("timeout after ");
                push_radix(&mut r, *timeout_ms, 10);
                r.append("ms waiting for ");
                r.append(operation.as_str());
                r
            },
            VirtualDeviceError::Io(e) => io_error_message("I/O error: ", e),
            VirtualDeviceError::CreationFailed { message } => concat2(
                "failed to create virtual device: ",
                message.as_str(),
            ),
        }
    }

    /// A permission error for uinput access, with the group fix.
    pub fn uinput_permission_denied() -> (r: Self)
        ensures
            r matches VirtualDeviceError::PermissionDenied { message, fix_instruction } && message@
                == "cannot access /dev/uinput"@ && fix_instruction@
                == "Add your user to the 'uinput' group: sudo usermod -aG uinput $USER\nThen log out and back in (or run: newgrp uinput)"@,
    {
        VirtualDeviceError::PermissionDenied {
            message: owned("cannot access /dev/uinput"),
            fix_instruction: owned(
                "Add your user to the 'uinput' group: sudo usermod -aG uinput $USER\nThen log out and back in (or run: newgrp uinput)",
            ),
        }
    }

    /// A permission error for an evdev device, with the group fix.
    pub fn evdev_permission_denied(device_path: &str) -> (r: Self)
        ensures
            r matches VirtualDeviceError::PermissionDenied { message, fix_instruction } && message@
                == "cannot access "@ + device_path@ && fix_instruction@
                == "Add your user to the 'input' group: sudo usermod -aG input $USER\nThen log out and back in."@,
    {
        VirtualDeviceError::PermissionDenied {
            message: concat2("cannot access ", device_path),
            fix_instruction: owned(
                "Add your user to the 'input' group: sudo usermod -aG input $USER\nThen log out and back in.",
            ),
        }
    }

    /// A not-found error for a device name and the time searched.
    pub fn device_not_found(name: &str, timeout_ms: u64) -> (r: Self)
        ensures
            r matches VirtualDeviceError::NotFound { name: n, timeout_ms: t } && n@ == name@ && t
                == timeout_ms,
    {
        VirtualDeviceError::NotFound { name: owned(name), timeout_ms }
    }

    /// A timeout error for an operation and the time waited.
    pub fn timeout(operation: &str, timeout_ms: u64) -> (r: Self)
        ensures
            r matches VirtualDeviceError::Timeout { operation: o, timeout_ms: t } && o@ == operation@
                && t == timeout_ms,
    {
        VirtualDeviceError::Timeout { operation: owned(operation), timeout_ms }
    }

    /// A creation error with the given message.
    pub fn creation_failed(message: &str) -> (r: Self)
        ensures
            r matches VirtualDeviceError::CreationFailed { message: m } && m@ == message@,
    {
        VirtualDeviceError::CreationFailed { message: owned(message) }
    }
}

impl From<std::io::Error> for VirtualDeviceError {
    fn from(e: std::io::Error) -> (r: Self) {
        VirtualDeviceError::Io(e)
    }
}

impl vstd::std_specs::convert::FromSpecImpl<std::io::Error> for VirtualDeviceError {
    open spec fn obeys_from_spec() -> bool {
        true
    }

    open spec fn from_spec(v: std::io::Error) -> Self {
        VirtualDeviceError::Io(v)
    }
}

/// The events of tapping a key: a press, then a release.
pub fn tap_events(keycode: KeyCode) -> (r: Vec<KeyEvent>)
    ensures
        r@ == seq![KeyEvent::Press(keycode), KeyEvent::Release(keycode)],
{
    let mut v: Vec<KeyEvent> = Vec::new();
    v.push(KeyEvent::Press(keycode));
    v.push(KeyEvent::Release(keycode));
    v
}

} // verus!
