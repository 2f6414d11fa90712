//! Timestamps of captured input events.

use vstd::prelude::*;
use crate::platform::common::{duration_since_epoch, duration_micros, since_epoch, micros_of};
use crate::keys::{KeyCode, KeyEvent};
use crate::platform::DeviceError;
use crate::text::{concat2, concat3};
use super::keycode_map::{evdev_to_keycode, key_of_evdev, evdev_code, lemma_evdev_roundtrip};

verus! {

/// A count of microseconds cut to 64 bits, as `as u64` does.
pub open spec fn micros_u64(micros: u128) -> u64 {
    (micros % 0x1_0000_0000_0000_0000) as u64
}

/// Keeps the low 64 bits of a count of microseconds.
pub fn truncate_micros(micros: u128) -> (r: u64)
    ensures
        r == micros_u64(micros),
{
    (micros % 0x1_0000_0000_0000_0000) as u64
}

/// An event time in microseconds since the Unix epoch, cut to 64 bits;
/// a time before the epoch counts as 0.
pub open spec fn epoch_micros(time: std::time::SystemTime) -> u64 {
    match since_epoch(time) {
        Some(d) => micros_u64(micros_of(d)),
        None => 0,
    }
}

/// Converts an event time to microseconds since the Unix epoch, for
/// tap-hold timing, cut to 64 bits; a time before the epoch gives 0.
pub fn systemtime_to_micros(time: std::time::SystemTime) -> (r: u64)
    ensures
        r == epoch_micros(time),
{
    match duration_since_epoch(&time) {
        Some(d) => {
            let m = duration_micros(&d);
            truncate_micros(m)
        },
        None => 0,
    }
}

/// The key event an evdev key event gives: value 1 is a press and value 0
/// a release of a known key; repeats (value 2), other values and unknown
/// keys give none.
pub open spec fn evdev_key_event(code: u16, value: i32) -> Option<KeyEvent> {
    match key_of_evdev(code) {
        Some(k) => if value == 1 {
            Some(KeyEvent::Press(k))
        } else if value == 0 {
            Some(KeyEvent::Release(k))
        } else {
            None
        },
        None => None,
    }
}

/// Turns an evdev key event (its key code and value) into the daemon's key
/// event, or `None` when the event is to be skipped.
pub fn key_event_from_evdev(code: u16, value: i32) -> (r: Option<KeyEvent>)
    ensures
        r == evdev_key_event(code, value),
{
    if value != 1 && value != 0 {
        return None;
    }
    match evdev_to_keycode(code) {
        Some(k) => if value == 1 {
            Some(KeyEvent::Press(k))
        } else {
            Some(KeyEvent::Release(k))
        },
        None => None,
    }
}

/// A key event stamped with the time the kernel recorded for it, in
/// microseconds since the Unix epoch.
#[derive(Debug, Clone, Copy, PartialEq, Eq, Structural)]
pub struct TimedKeyEvent {
    pub event: KeyEvent,
    pub timestamp_us: u64,
}

/// Turns an evdev key event (its key code, value and time) into the
/// daemon's key event stamped with that time, or `None` when the event is
/// to be skipped.
pub fn timed_key_event_from_evdev(code: u16, value: i32, time: std::time::SystemTime) -> (r: Option<
    TimedKeyEvent,
>)
    ensures
        r is Some <==> evdev_key_event(code, value) is Some,
        r matches Some(t) ==> evdev_key_event(code, value) == Some(t.event) && t.timestamp_us
            == epoch_micros(time),
{
    match key_event_from_evdev(code, value) {
        Some(event) => Some(TimedKeyEvent { event, timestamp_us: systemtime_to_micros(time) }),
        None => None,
    }
}

/// The kinds of I/O failure that the input paths tell apart.
#[derive(Debug, Clone, Copy, PartialEq, Eq, Structural)]
pub enum IoErrorClass {
    /// The file does not exist.
    NotFound,
    /// Access was refused.
    PermissionDenied,
    /// A non-blocking read found nothing to read.
    WouldBlock,
    /// Any other failure.
    Other,
}

/// The class of an I/O error's kind: what `io::Error::kind` gives, with
/// every kind but the three named ones taken as `Other`.
pub uninterp spec fn io_kind_class(e: std::io::Error) -> IoErrorClass;

/// The class of an I/O error's kind (`io::Error::kind`), a function of the
/// error alone, named [`io_kind_class`].
#[verifier::external_body]
fn io_error_class(e: &std::io::Error) -> (r: IoErrorClass)
    ensures
        r == io_kind_class(*e),
{
    match e.kind() {
        std::io::ErrorKind::NotFound => IoErrorClass::NotFound,
        std::io::ErrorKind::PermissionDenied => IoErrorClass::PermissionDenied,
        std::io::ErrorKind::WouldBlock => IoErrorClass::WouldBlock,
        _ => IoErrorClass::Other,
    }
}

/// The device error for a failure of class `class` to open the device at
/// `path`: a missing device is not found, a refused one is a permission
/// error that names the fix, anything else is reported as I/O.
pub fn open_failure_for(class: IoErrorClass, e: std::io::Error, path: &str) -> (r: DeviceError)
    ensures
        class is NotFound ==> (r matches DeviceError::NotFound(m) && m@ == "device not found: "@
            + path@),
        class is PermissionDenied ==> (r matches DeviceError::PermissionDenied(m) && m@
            == "cannot access "@ + path@ + ": permission denied. Try adding user to 'input' group"@),
        !(class is NotFound) && !(class is PermissionDenied) ==> r == DeviceError::Io(e),
{
    match class {
        IoErrorClass::NotFound => DeviceError::NotFound(concat2("device not found: ", path)),
        IoErrorClass::PermissionDenied => DeviceError::PermissionDenied(
            concat3("cannot access ", path, ": permission denied. Try adding user to 'input' group"),
        ),
        _ => DeviceError::Io(e),
    }
}

/// The device error for a failure to open the device at `path`, by the
/// kind of the I/O error (see [`open_failure_for`]).
pub fn open_failure(e: std::io::Error, path: &str) -> (r: DeviceError)
    ensures
        io_kind_class(e) is NotFound ==> (r matches DeviceError::NotFound(m) && m@
            == "device not found: "@ + path@),
        io_kind_class(e) is PermissionDenied ==> (r matches DeviceError::PermissionDenied(m) && m@
            == "cannot access "@ + path@ + ": permission denied. Try adding user to 'input' group"@),
        !(io_kind_class(e) is NotFound) && !(io_kind_class(e) is PermissionDenied) ==> r
            == DeviceError::Io(e),
{
    let class = io_error_class(&e);
    open_failure_for(class, e, path)
}

/// The device error for a failure of class `class` to grab the device at
/// `path`: a refusal is a permission error that names the fix, anything
/// else is reported as I/O.
pub fn grab_failure_for(class: IoErrorClass, e: std::io::Error, path: &str) -> (r: DeviceError)
    ensures
        class is PermissionDenied ==> (r matches DeviceError::PermissionDenied(m) && m@
            == "cannot grab device "@ + path@
            + ": permission denied. Try running as root or with CAP_SYS_ADMIN"@),
        !(class is PermissionDenied) ==> r == DeviceError::Io(e),
{
    match class {
        IoErrorClass::PermissionDenied => DeviceError::PermissionDenied(
            concat3(
                "cannot grab device ",
                path,
                ": permission denied. Try running as root or with CAP_SYS_ADMIN",
            ),
        ),
        _ => DeviceError::Io(e),
    }
}

/// The device error for a failure to grab the device at `path`, by the
/// kind of the I/O error (see [`grab_failure_for`]).
pub fn grab_failure(e: std::io::Error, path: &str) -> (r: DeviceError)
    ensures
        io_kind_class(e) is PermissionDenied ==> (r matches DeviceError::PermissionDenied(m) && m@
            == "cannot grab device "@ + path@
            + ": permission denied. Try running as root or with CAP_SYS_ADMIN"@),
        !(io_kind_class(e) is PermissionDenied) ==> r == DeviceError::Io(e),
{
    let class = io_error_class(&e);
    grab_failure_for(class, e, path)
}

/// The device error for a failure of class `class` to read events: a
/// non-blocking read with nothing to read ends the stream.
pub fn read_failure_for(class: IoErrorClass, e: std::io::Error) -> (r: DeviceError)
    ensures
        class is WouldBlock ==> r is EndOfStream,
        !(class is WouldBlock) ==> r == DeviceError::Io(e),
{
    match class {
        IoErrorClass::WouldBlock => DeviceError::EndOfStream,
        _ => DeviceError::Io(e),
    }
}

/// The device error for a failure to read events: the end of the stream
/// when nothing was there to read, else the I/O error itself.
pub fn read_failure(e: std::io::Error) -> (r: DeviceError)
    ensures
        io_kind_class(e) is WouldBlock ==> r is EndOfStream,
        !(io_kind_class(e) is WouldBlock) ==> r == DeviceError::Io(e),
{
    let class = io_error_class(&e);
    read_failure_for(class, e)
}

/// The key events of a batch of evdev key events (code and value each),
/// in order, skipping those [`evdev_key_event`] skips.
pub open spec fn batch_key_events(batch: Seq<(u16, i32)>) -> Seq<KeyEvent>
    decreases batch.len(),
{
    if batch.len() == 0 {
        Seq::empty()
    } else {
        let rest = batch_key_events(batch.drop_last());
        match evdev_key_event(batch.last().0, batch.last().1) {
            Some(e) => rest.push(e),
            None => rest,
        }
    }
}

/// Converts a batch of evdev key events to the daemon's key events.
pub fn key_events_from_batch(batch: &Vec<(u16, i32)>) -> (r: Vec<KeyEvent>)
    ensures
        r@ == batch_key_events(batch@),
{
    let mut out: Vec<KeyEvent> = Vec::new();
    let mut i: usize = 0;
    while i < batch.len()
        invariant
            i <= batch@.len(),
            out@ == batch_key_events(batch@.subrange(0, i as int)),
        decreases batch@.len() - i,
    {
        let (code, value) = batch[i];
        let ghost next = batch@.subrange(0, i + 1);
        assert(next.drop_last() =~= batch@.subrange(0, i as int));
        assert(next.last() == (code, value));
        if let Some(e) = key_event_from_evdev(code, value) {
            out.push(e);
        }
        i = i + 1;
    }
    assert(batch@.subrange(0, batch@.len() as int) =~= batch@);
    out
}

/// On the evdev code of a key, value 1 presses that key and value 0
/// releases it; a repeat (value 2) or any other value is skipped, and so is
/// every event on a code that names no key.
pub proof fn law_evdev_values_press_and_release(k: KeyCode, value: i32, code: u16)
    ensures
        evdev_key_event(evdev_code(k), 1) == Some(KeyEvent::Press(k)),
        evdev_key_event(evdev_code(k), 0) == Some(KeyEvent::Release(k)),
        value != 0 && value != 1 ==> evdev_key_event(code, value) is None,
        key_of_evdev(code) is None ==> evdev_key_event(code, value) is None,
{
    lemma_evdev_roundtrip(k);
}

} // verus!
