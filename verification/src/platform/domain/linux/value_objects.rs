//! Linux value objects: evdev event codes and device file descriptors.

use vstd::prelude::*;
use crate::platform::domain::DomainError;

verus! {

/// Event code value object: a Linux evdev event code (KEY_A, KEY_ENTER, ...).
#[derive(Debug, Clone, Copy, PartialEq, Eq, Hash)]
pub struct EventCodeVO {
    code: u16,
}

impl View for EventCodeVO {
    type V = u16;

    closed spec fn view(&self) -> u16 {
        self.code
    }
}

impl EventCodeVO {
    /// Wraps a raw event code.
    pub fn new(code: u16) -> (r: Self)
        ensures
            r@ == code,
    {
        EventCodeVO { code }
    }

    /// The raw event code.
    pub fn as_raw(&self) -> (r: u16)
        ensures
            r == self@,
    {
        self.code
    }

    /// Whether this is a key event code (0x0000-0x02FF).
    pub fn is_key_event(&self) -> (r: bool)
        ensures
            r == (self@ < 0x0300),
    {
        self.code < 0x0300
    }

    /// Whether this is a synchronization event (EV_SYN = 0).
    pub fn is_sync_event(&self) -> (r: bool)
        ensures
            r == (self@ == 0),
    {
        self.code == 0
    }
}

impl From<u16> for EventCodeVO {
    fn from(code: u16) -> (r: Self) {
        EventCodeVO::new(code)
    }
}

impl vstd::std_specs::convert::FromSpecImpl<u16> for EventCodeVO {
    open spec fn obeys_from_spec() -> bool {
        true
    }

    closed spec fn from_spec(v: u16) -> Self {
        EventCodeVO { code: v }
    }
}

/// Device file descriptor value object: a non-negative Linux file descriptor
/// for an evdev or uinput device.
#[derive(Debug, Clone, Copy, PartialEq, Eq, Hash)]
pub struct DeviceFdVO {
    fd: i32,
}

impl View for DeviceFdVO {
    type V = i32;

    closed spec fn view(&self) -> i32 {
        self.fd
    }
}

/// The outcome of creating a file descriptor value object from `fd`.
pub open spec fn fd_result_matches(r: Result<DeviceFdVO, DomainError>, fd: i32) -> bool {
    &&& fd < 0 <==> r is Err
    &&& r matches Ok(v) ==> v@ == fd
    &&& r matches Err(e) ==> e matches DomainError::InvalidDeviceHandle(m)
        && m@ == "File descriptor must be non-negative"@
}

impl DeviceFdVO {
    /// Creates a file descriptor value; negative descriptors are refused.
    pub fn new(fd: i32) -> (r: Result<Self, DomainError>)
        ensures
            fd_result_matches(r, fd),
    {
        if fd < 0 {
            return Err(
                DomainError::InvalidDeviceHandle(
                    String::from_str("File descriptor must be non-negative"),
                ),
            );
        }
        Ok(DeviceFdVO { fd })
    }

    /// The raw file descriptor.
    pub fn as_raw_fd(&self) -> (r: i32)
        ensures
            r == self@,
    {
        self.fd
    }

    /// Whether the descriptor is valid (non-negative).
    pub fn is_valid(&self) -> (r: bool)
        ensures
            r == (self@ >= 0),
    {
        self.fd >= 0
    }

    /// Whether this is stdin (fd 0).
    pub fn is_stdin(&self) -> (r: bool)
        ensures
            r == (self@ == 0),
    {
        self.fd == 0
    }

    /// Whether this is stdout (fd 1).
    pub fn is_stdout(&self) -> (r: bool)
        ensures
            r == (self@ == 1),
    {
        self.fd == 1
    }

    /// Whether this is stderr (fd 2).
    pub fn is_stderr(&self) -> (r: bool)
        ensures
            r == (self@ == 2),
    {
        self.fd == 2
    }
}

impl TryFrom<i32> for DeviceFdVO {
    type Error = DomainError;

    fn try_from(fd: i32) -> (r: Result<Self, Self::Error>)
        ensures
            fd_result_matches(r, fd),
    {
        DeviceFdVO::new(fd)
    }
}

impl vstd::std_specs::convert::TryFromSpecImpl<i32> for DeviceFdVO {
    /// Two owned strings with the same text are not known to be one value,
    /// so calls are held to `fd_result_matches` through the `ensures` of
    /// `try_from` rather than to this function.
    open spec fn obeys_try_from_spec() -> bool {
        false
    }

    /// The conversion: a non-negative descriptor is accepted as it is; a
    /// negative one is an invalid handle with a message that says so.
    closed spec fn try_from_spec(v: i32) -> Result<Self, DomainError> {
        if v < 0 {
            Err(
                DomainError::InvalidDeviceHandle(
                    choose|m: String| #[trigger] m@ == "File descriptor must be non-negative"@,
                ),
            )
        } else {
            Ok(DeviceFdVO { fd: v })
        }
    }
}

} // verus!
