//! Types shared by every platform: device information and platform errors.

use vstd::prelude::*;
use crate::text::concat2;

verus! {

/// The I/O error type of the standard library, carried by error variants.
#[verifier::external_type_specification]
#[verifier::external_body]
pub struct ExIoError(std::io::Error);

/// The message an I/O error displays (`io::Error`'s `Display`, through
/// `to_string`).  Nothing is stated of the text: an `io::Error` has no
/// model here, and its message depends on the operating system's wording.
#[verifier::external_body]
pub(crate) fn io_error_text(e: &std::io::Error) -> String {
    e.to_string()
}

/// `prefix` followed by the message of an I/O error.
pub fn io_error_message(prefix: &str, e: &std::io::Error) -> (r: String)
    ensures
        prefix@.is_prefix_of(r@),
{
    let text = io_error_text(e);
    let r = concat2(prefix, text.as_str());
    assert(r@.subrange(0, prefix@.len() as int) =~= prefix@);
    r
}

/// The wall-clock time type of the standard library.
#[verifier::external_type_specification]
#[verifier::external_body]
pub struct ExSystemTime(std::time::SystemTime);

/// The current wall-clock time (`SystemTime::now`).  Nothing is stated of
/// it: it is whatever the system clock reads.
#[verifier::external_body]
pub(crate) fn system_now() -> std::time::SystemTime {
    std::time::SystemTime::now()
}

/// What `t.duration_since(UNIX_EPOCH)` gives for a time: the time elapsed
/// since the Unix epoch, or `None` for a time earlier than the epoch.
pub uninterp spec fn since_epoch(t: std::time::SystemTime) -> Option<std::time::Duration>;

/// The whole seconds of a duration (`Duration::as_secs`).
pub uninterp spec fn secs_of(d: std::time::Duration) -> u64;

/// The fractional part of a duration in nanoseconds
/// (`Duration::subsec_nanos`).
pub uninterp spec fn subsec_nanos_of(d: std::time::Duration) -> u32;

/// The whole microseconds of a duration (`Duration::as_micros`).
pub uninterp spec fn micros_of(d: std::time::Duration) -> u128;

/// The time elapsed from the Unix epoch to `t`
/// (`t.duration_since(UNIX_EPOCH)`), or `None` when `t` is earlier than
/// the epoch; a function of `t` alone, named [`since_epoch`].
#[verifier::external_body]
pub(crate) fn duration_since_epoch(t: &std::time::SystemTime) -> (r: Option<std::time::Duration>)
    ensures
        r == since_epoch(*t),
{
    t.duration_since(std::time::UNIX_EPOCH).ok()
}

/// The whole seconds of a duration (`Duration::as_secs`), named
/// [`secs_of`].
#[verifier::external_body]
pub(crate) fn duration_secs(d: &std::time::Duration) -> (r: u64)
    ensures
        r == secs_of(*d),
{
    d.as_secs()
}

/// The fractional part of a duration in nanoseconds
/// (`Duration::subsec_nanos`), which its documentation bounds below one
/// second; named [`subsec_nanos_of`].
#[verifier::external_body]
pub(crate) fn duration_subsec_nanos(d: &std::time::Duration) -> (n: u32)
    ensures
        n == subsec_nanos_of(*d),
        n < 1_000_000_000,
{
    d.subsec_nanos()
}

/// The whole microseconds of a duration (`Duration::as_micros`), named
/// [`micros_of`]: a duration is its whole seconds and its fractional
/// nanoseconds, so this is the seconds times a million plus the whole
/// microseconds of the fraction.
#[verifier::external_body]
pub(crate) fn duration_micros(d: &std::time::Duration) -> (r: u128)
    ensures
        r == micros_of(*d),
        r == secs_of(*d) * 1_000_000 + subsec_nanos_of(*d) / 1000,
{
    d.as_micros()
}

/// Information about an input device that can be used for key remapping.
#[derive(Debug, Clone, PartialEq, Eq)]
pub struct DeviceInfo {
    /// Unique identifier for the device.
    pub id: String,
    /// Human-readable name of the device.
    pub name: String,
    /// System path to the device.
    pub path: String,
    /// USB vendor ID.
    pub vendor_id: u16,
    /// USB product ID.
    pub product_id: u16,
}

/// Errors that can occur during platform operations.
#[derive(Debug)]
pub enum PlatformError {
    /// The requested platform is not supported on this system.
    Unsupported,
    /// The specified device was not found.
    DeviceNotFound(String),
    /// Permission denied when accessing a device or resource.
    PermissionDenied(String),
    /// Platform initialization failed.
    InitializationFailed(String),
    /// A lock protecting shared state was poisoned.
    Poisoned(String),
    /// Input/output operation failed.
    Io(std::io::Error),
    /// Event injection failed.
    InjectionFailed(String),
}

impl PlatformError {
    /// Renders the error as human-readable text; for I/O errors the text
    /// starts with `I/O error: ` followed by the I/O error's own message.
    pub fn to_string(&self) -> (r: String)
        ensures
            *self is Unsupported ==> r@ == "Platform not supported on this operating system"@,
            *self matches PlatformError::DeviceNotFound(m) ==> r@ == "Device not found: "@ + m@,
            *self matches PlatformError::PermissionDenied(m) ==> r@ == "Permission denied: "@ + m@,
            *self matches PlatformError::InitializationFailed(m) ==> r@
                == "Platform initialization failed: "@ + m@,
            *self matches PlatformError::Poisoned(m) ==> r@ == "Mutex poisoned: "@ + m@,
            *self is Io ==> "I/O error: "@.is_prefix_of(r@),
            *self matches PlatformError::InjectionFailed(m) ==> r@ == "Event injection failed: "@
                + m@,
    {
        match self {
            PlatformError::Unsupported => String::from_str(
                "Platform not supported on this operating system",
            ),
            PlatformError::DeviceNotFound(m) => concat2("Device not found: ", m.as_str()),
            PlatformError::PermissionDenied(m) => concat2("Permission denied: ", m.as_str()),
            PlatformError::InitializationFailed(m) => concat2(
                "Platform initialization failed: ",
                m.as_str(),
            ),
            PlatformError::Poisoned(m) => concat2("Mutex poisoned: ", m.as_str()),
            PlatformError::Io(e) => io_error_message("I/O error: ", e),
            PlatformError::InjectionFailed(m) => concat2("Event injection failed: ", m.as_str()),
        }
    }
}

impl From<std::io::Error> for PlatformError {
    fn from(e: std::io::Error) -> (r: Self) {
        PlatformError::Io(e)
    }
}

impl vstd::std_specs::convert::FromSpecImpl<std::io::Error> for PlatformError {
    open spec fn obeys_from_spec() -> bool {
        true
    }

    open spec fn from_spec(v: std::io::Error) -> Self {
        PlatformError::Io(v)
    }
}

} // verus!
