//! Value objects of the common platform domain: device paths and handles.

use vstd::prelude::*;
use crate::platform::domain::DomainError;
use crate::text::starts_with;

verus! {

/// Device path value object: a platform-specific, non-empty device path
/// (e.g. `/dev/input/event0` on Linux).
#[derive(Debug, PartialEq, Eq, Hash)]
pub struct DevicePathVO {
    path: String,
}

impl Clone for DevicePathVO {
    fn clone(&self) -> (r: Self)
        ensures
            r@ == self@,
    {
        proof {
            use_type_invariant(self);
        }
        DevicePathVO { path: self.path.clone() }
    }
}

impl View for DevicePathVO {
    type V = Seq<char>;

    closed spec fn view(&self) -> Seq<char> {
        self.path@
    }
}

impl DevicePathVO {
    /// The invariant every device path keeps: it is never empty.
    #[verifier::type_invariant]
    pub closed spec fn non_empty(self) -> bool {
        self.path@.len() > 0
    }

    /// A path that keeps its invariant has a non-empty view.
    pub proof fn lemma_non_empty(p: DevicePathVO)
        requires
            p.non_empty(),
        ensures
            p@.len() > 0,
    {
    }

    /// Creates a device path; the empty path is refused.
    pub fn new(path: String) -> (r: Result<Self, DomainError>)
        ensures
            path@.len() == 0 <==> r is Err,
            r matches Ok(p) ==> p@ == path@,
            r matches Err(e) ==> e matches DomainError::InvalidDevicePath(m)
                && m@ == "Path cannot be empty"@,
    {
        if path.as_str().unicode_len() == 0 {
            return Err(DomainError::InvalidDevicePath(String::from_str("Path cannot be empty")));
        }
        Ok(DevicePathVO { path })
    }

    /// The path text.
    pub fn as_str(&self) -> (r: &str)
        ensures
            r@ == self@,
            r@.len() > 0,
    {
        proof {
            use_type_invariant(self);
        }
        self.path.as_str()
    }

    /// Whether this is a Linux evdev path (`/dev/input/event...`).
    pub fn is_evdev_path(&self) -> (r: bool)
        ensures
            r == "/dev/input/event"@.is_prefix_of(self@),
    {
        starts_with(self.path.as_str(), "/dev/input/event")
    }

    /// Whether this is a Windows device path (`\\.\...` or `\\?\...`).
    pub fn is_windows_device_path(&self) -> (r: bool)
        ensures
            r == ("\\\\.\\"@.is_prefix_of(self@) || "\\\\?\\"@.is_prefix_of(self@)),
    {
        starts_with(self.path.as_str(), "\\\\.\\") || starts_with(self.path.as_str(), "\\\\?\\")
    }

    /// The text the path is displayed as.
    pub fn to_string(&self) -> (r: String)
        ensures
            r@ == self@,
    {
        String::from_str(self.path.as_str())
    }
}

/// Device handle value object: an opaque, non-negative platform handle
/// (a file descriptor on Linux, a HANDLE on Windows).
#[derive(Debug, Clone, Copy, PartialEq, Eq, Hash)]
pub struct DeviceHandleVO {
    handle: i32,
}

impl View for DeviceHandleVO {
    type V = i32;

    closed spec fn view(&self) -> i32 {
        self.handle
    }
}

impl DeviceHandleVO {
    /// Creates a handle; negative handles are refused.
    pub fn new(handle: i32) -> (r: Result<Self, DomainError>)
        ensures
            handle < 0 <==> r is Err,
            r matches Ok(h) ==> h@ == handle,
            r matches Err(e) ==> e matches DomainError::InvalidDeviceHandle(m)
                && m@ == "Handle cannot be negative"@,
    {
        if handle < 0 {
            return Err(DomainError::InvalidDeviceHandle(String::from_str("Handle cannot be negative")));
        }
        Ok(DeviceHandleVO { handle })
    }

    /// The raw handle value.
    pub fn as_raw(&self) -> (r: i32)
        ensures
            r == self@,
    {
        self.handle
    }

    /// Whether the handle is valid (non-negative).
    pub fn is_valid(&self) -> (r: bool)
        ensures
            r == (self@ >= 0),
    {
        self.handle >= 0
    }
}

} // verus!
