//! Platform abstraction: device and tray errors, tray control events, the
//! input/output device traits, key code tables and the platform domain model.

pub mod common;
pub mod domain;
pub mod linux;
pub mod macos;
pub mod mock;
pub mod windows;

pub use common::{DeviceInfo, PlatformError};
pub use mock::MockOutput;

use vstd::prelude::*;
use crate::keys::KeyEvent;
use crate::text::concat2;
use common::io_error_message;

verus! {

/// Errors that can occur during device operations.
#[derive(Debug)]
pub enum DeviceError {
    /// Device was not found or could not be opened.
    NotFound(String),
    /// Permission denied when accessing the device.
    PermissionDenied(String),
    /// End of the event stream: a normal termination, not a failure.
    EndOfStream,
    /// Failed to inject an event into the output device.
    InjectionFailed(String),
    /// I/O error during a device operation.
    Io(std::io::Error),
}

/// The text of a device error other than an I/O error.
pub open spec fn device_error_message(e: DeviceError) -> Seq<char> {
    match e {
        DeviceError::NotFound(m) => "device not found: "@ + m@,
        DeviceError::PermissionDenied(m) => "permission denied: "@ + m@,
        DeviceError::EndOfStream => "end of stream"@,
        DeviceError::InjectionFailed(m) => "event injection failed: "@ + m@,
        DeviceError::Io(_) => "I/O error: "@,
    }
}

impl DeviceError {
    /// Renders the error as human-readable text; for I/O errors the text
    /// starts with `I/O error: ` followed by the I/O error's own message.
    pub fn to_string(&self) -> (r: String)
        ensures
            !(*self is Io) ==> r@ == device_error_message(*self),
            *self is Io ==> "I/O error: "@.is_prefix_of(r@),
    {
        match self {
            DeviceError::NotFound(m) => concat2("device not found: ", m.as_str()),
            DeviceError::PermissionDenied(m) => concat2("permission denied: ", m.as_str()),
            DeviceError::EndOfStream => String::from_str("end of stream"),
            DeviceError::InjectionFailed(m) => concat2("event injection failed: ", m.as_str()),
            DeviceError::Io(e) => io_error_message("I/O error: ", e),
        }
    }
}

impl From<std::io::Error> for DeviceError {
    fn from(e: std::io::Error) -> (r: Self) {
        DeviceError::Io(e)
    }
}

impl vstd::std_specs::convert::FromSpecImpl<std::io::Error> for DeviceError {
    open spec fn obeys_from_spec() -> bool {
        true
    }

    open spec fn from_spec(v: std::io::Error) -> Self {
        DeviceError::Io(v)
    }
}

/// Errors that can occur during system tray operations.
#[derive(Debug)]
pub enum TrayError {
    /// System tray is not available (headless system, no desktop).
    NotAvailable(String),
    /// Failed to load the tray icon.
    IconLoadFailed(String),
    /// Other tray initialization or operation error.
    Other(String),
}

impl TrayError {
    /// Renders the error as human-readable text.
    pub fn to_string(&self) -> (r: String)
        ensures
            *self matches TrayError::NotAvailable(m) ==> r@ == "system tray not available: "@
                + m@,
            *self matches TrayError::IconLoadFailed(m) ==> r@ == "failed to load icon: "@ + m@,
            *self matches TrayError::Other(m) ==> r@ == "tray error: "@ + m@,
    {
        match self {
            TrayError::NotAvailable(m) => concat2("system tray not available: ", m.as_str()),
            TrayError::IconLoadFailed(m) => concat2("failed to load icon: ", m.as_str()),
            TrayError::Other(m) => concat2("tray error: ", m.as_str()),
        }
    }
}

/// Events generated by the system tray menu.
#[derive(Debug, Clone, Copy, PartialEq, Eq, Structural)]
pub enum TrayControlEvent {
    /// Reload the configuration.
    Reload,
    /// Open the web UI configuration editor.
    OpenWebUI,
    /// Exit the daemon.
    Exit,
}

/// Result of one iteration of event processing.
#[derive(Debug, Clone, Copy, PartialEq, Eq, Structural)]
pub enum ProcessResult {
    /// Continue processing events normally.
    Continue,
    /// The user asked for a configuration reload.
    ReloadRequested,
    /// The user asked the daemon to exit.
    ExitRequested,
}

/// What a pending tray event means for the event loop: reload and exit end
/// the iteration with that request; opening the web UI, or no event, lets
/// the iteration go on to process device events.
pub open spec fn tray_outcome(event: Option<TrayControlEvent>) -> Option<ProcessResult> {
    match event {
        Some(TrayControlEvent::Reload) => Some(ProcessResult::ReloadRequested),
        Some(TrayControlEvent::Exit) => Some(ProcessResult::ExitRequested),
        _ => None,
    }
}

/// Decides what a polled tray event does to the current loop iteration;
/// `None` means the iteration goes on with device events.
pub fn tray_event_outcome(event: Option<TrayControlEvent>) -> (r: Option<ProcessResult>)
    ensures
        r == tray_outcome(event),
{
    match event {
        Some(TrayControlEvent::Reload) => Some(ProcessResult::ReloadRequested),
        Some(TrayControlEvent::Exit) => Some(ProcessResult::ExitRequested),
        Some(TrayControlEvent::OpenWebUI) => None,
        None => None,
    }
}

/// Whether a device read failure is reported: the end of a stream is a
/// normal condition and is not.
pub fn is_reportable_device_error(e: &DeviceError) -> (r: bool)
    ensures
        r == !(*e is EndOfStream),
{
    match e {
        DeviceError::EndOfStream => false,
        _ => true,
    }
}

/// Cross-platform system tray interface, implemented by each platform's
/// native tray.
pub trait SystemTray {
    /// Creates a tray icon with its menu.
    fn new() -> Result<Self, TrayError> where Self: Sized;

    /// Polls for a menu event without blocking.
    fn poll_event(&self) -> Option<TrayControlEvent>;

    /// Releases all tray resources and removes the icon.
    fn shutdown(&mut self) -> Result<(), TrayError>;
}

/// Input device: a source of keyboard events with exclusive access.
pub trait InputDevice {
    /// Retrieves the next keyboard event from the device.
    fn next_event(&mut self) -> Result<KeyEvent, DeviceError>;

    /// Obtains exclusive access to the device.
    fn grab(&mut self) -> Result<(), DeviceError>;

    /// Releases exclusive access to the device.
    fn release(&mut self) -> Result<(), DeviceError>;
}

/// Output device: a sink that injects keyboard events into the system.
///
/// An implementation keeps account of the events it has injected so far,
/// oldest first: a successful injection adds its event at the end, a
/// failed one adds nothing.
pub trait OutputDevice {
    /// The events this device has injected so far, oldest first.
    spec fn injected(&self) -> Seq<KeyEvent>;

    /// Injects a keyboard event.
    fn inject_event(&mut self, event: KeyEvent) -> (r: Result<(), DeviceError>)
        ensures
            r is Ok ==> final(self).injected() == old(self).injected().push(event),
            r is Err ==> final(self).injected() == old(self).injected(),
    ;
}

/// Only the tray's reload and exit requests end an iteration, each with
/// its own request; opening the web UI, or no event at all, lets the loop
/// go on with device events.
pub proof fn law_tray_requests(event: Option<TrayControlEvent>)
    ensures
        tray_outcome(Some(TrayControlEvent::Reload)) == Some(ProcessResult::ReloadRequested),
        tray_outcome(Some(TrayControlEvent::Exit)) == Some(ProcessResult::ExitRequested),
        tray_outcome(event) is Some <==> (event == Some(TrayControlEvent::Reload) || event == Some(
            TrayControlEvent::Exit,
        )),
        !(tray_outcome(event) == Some(ProcessResult::Continue)),
{
}

} // verus!
