//! The decisions of output capture: which device nodes are probed, which
//! open failures end the search, when polling gives up, and how captured
//! key events are buffered between reads.

use vstd::prelude::*;
use crate::text::{starts_with, contains_str, contains_seq};
use crate::keys::KeyEvent;

verus! {

/// Polling interval when waiting for a device to appear, in milliseconds.
pub const POLL_INTERVAL_MS: u64 = 50;

/// What `Duration::from_millis(ms)` gives: a duration of `ms` whole
/// milliseconds.
pub uninterp spec fn millis_duration(ms: u64) -> std::time::Duration;

/// A duration of whole milliseconds (`Duration::from_millis`), a function
/// of `ms` alone, named [`millis_duration`].
#[verifier::external_body]
fn duration_from_millis(ms: u64) -> (r: std::time::Duration)
    ensures
        r == millis_duration(ms),
{
    std::time::Duration::from_millis(ms)
}

/// Polling interval when waiting for a device to appear: 50 milliseconds.
pub fn poll_interval() -> (r: std::time::Duration)
    ensures
        r == millis_duration(POLL_INTERVAL_MS),
{
    duration_from_millis(POLL_INTERVAL_MS)
}

/// Whether a directory entry of `/dev/input` is probed: its file name must
/// be valid text starting with `event`.
pub fn is_event_node(file_name: Option<&str>) -> (r: bool)
    ensures
        r == (file_name matches Some(n) && "event"@.is_prefix_of(n@)),
{
    match file_name {
        Some(n) => starts_with(n, "event"),
        None => false,
    }
}

/// Whether the failure to open a device node means access is denied,
/// which ends the search; other failures (a busy device) skip the node.
pub fn is_access_denied(error_text: &str) -> (r: bool)
    ensures
        r == (contains_seq(error_text@, "Permission denied"@) || contains_seq(
            error_text@,
            "EACCES"@,
        )),
{
    contains_str(error_text, "Permission denied") || contains_str(error_text, "EACCES")
}

/// What a search does after a poll that did not find the device.
#[derive(Debug, Clone, Copy, PartialEq, Eq, Structural)]
pub enum PollStep {
    /// Sleep for the polling interval, then poll again.
    Wait,
    /// Stop: the device was not found in time.
    GiveUp,
}

/// Decides the next step of a search from the time spent so far, in nanoseconds: it gives
/// up once the timeout has elapsed.
pub fn after_empty_poll(elapsed_ns: u128, timeout_ns: u128) -> (r: PollStep)
    ensures
        r == (if elapsed_ns >= timeout_ns { PollStep::GiveUp } else { PollStep::Wait }),
{
    if elapsed_ns >= timeout_ns {
        PollStep::GiveUp
    } else {
        PollStep::Wait
    }
}

/// The key events a capture has read from its device but not handed out
/// yet, oldest first.
pub struct EventBuffer {
    events: Vec<KeyEvent>,
}

impl View for EventBuffer {
    type V = Seq<KeyEvent>;

    closed spec fn view(&self) -> Seq<KeyEvent> {
        self.events@
    }
}

impl EventBuffer {
    /// An empty buffer.
    pub fn new() -> (r: Self)
        ensures
            r@ == Seq::<KeyEvent>::empty(),
    {
        EventBuffer { events: Vec::new() }
    }

    /// How many events wait in the buffer.
    pub fn len(&self) -> (r: usize)
        ensures
            r == self@.len(),
    {
        self.events.len()
    }

    /// Hands out the oldest buffered event, if there is one.
    pub fn take_front(&mut self) -> (r: Option<KeyEvent>)
        ensures
            old(self)@.len() == 0 ==> r is None && final(self)@ == old(self)@,
            old(self)@.len() > 0 ==> r == Some(old(self)@[0]) && final(self)@ == old(self)@.drop_first(),
    {
        if self.events.len() == 0 {
            None
        } else {
            Some(self.events.remove(0))
        }
    }

    /// Takes the key events of a freshly read batch: the first is handed
    /// out and the others wait, behind those already buffered; an empty
    /// batch hands out nothing.
    pub fn accept_batch(&mut self, batch: Vec<KeyEvent>) -> (r: Option<KeyEvent>)
        ensures
            batch@.len() == 0 ==> r is None && final(self)@ == old(self)@,
            batch@.len() > 0 ==> r == Some(batch@[0]) && final(self)@ == old(self)@ + batch@.drop_first(),
    {
        let mut batch = batch;
        if batch.len() == 0 {
            return None;
        }
        let first = batch.remove(0);
        self.events.append(&mut batch);
        Some(first)
    }

    /// Discards every buffered event and says how many there were.
    pub fn clear(&mut self) -> (r: usize)
        ensures
            r == old(self)@.len(),
            final(self)@ == Seq::<KeyEvent>::empty(),
    {
        let n = self.events.len();
        self.events.clear();
        n
    }
}

} // verus!
