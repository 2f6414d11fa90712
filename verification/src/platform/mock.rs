//! An output device that keeps what it is given, for exercising the
//! processing pipeline without a real device.

use vstd::prelude::*;
use crate::keys::KeyEvent;
use crate::platform::{DeviceError, OutputDevice};
use crate::text::owned;

verus! {

/// An output device that appends every injected event to a buffer, or, in
/// fail mode, refuses every injection.
pub struct MockOutput {
    events: Vec<KeyEvent>,
    fail_mode: bool,
}

impl MockOutput {
    /// A device that has injected nothing and accepts injections.
    pub fn new() -> (r: Self)
        ensures
            r.injected() == Seq::<KeyEvent>::empty(),
            !r.fails(),
    {
        MockOutput { events: Vec::new(), fail_mode: false }
    }

    /// Whether the device refuses injections.
    pub closed spec fn fails(&self) -> bool {
        self.fail_mode
    }

    /// Makes the device refuse (`true`) or accept (`false`) injections.
    pub fn set_fail_mode(&mut self, fail: bool)
        ensures
            final(self).fails() == fail,
            final(self).injected() == old(self).injected(),
    {
        self.fail_mode = fail;
    }

    /// The events injected so far, oldest first.
    pub fn events(&self) -> (r: &[KeyEvent])
        ensures
            r@ == self.injected(),
    {
        self.events.as_slice()
    }
}

impl OutputDevice for MockOutput {
    closed spec fn injected(&self) -> Seq<KeyEvent> {
        self.events@
    }

    fn inject_event(&mut self, event: KeyEvent) -> (r: Result<(), DeviceError>)
        ensures
            r is Err <==> old(self).fails(),
            final(self).fails() == old(self).fails(),
    {
        if self.fail_mode {
            return Err(DeviceError::InjectionFailed(owned("mock failure")));
        }
        self.events.push(event);
        Ok(())
    }
}

} // verus!
