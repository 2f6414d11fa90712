//! Aggregate root of the common platform domain: a device with its path,
//! handle and lifecycle (initialized, grabbed) under a version counter.

use vstd::prelude::*;
use super::value_objects::{DeviceHandleVO, DevicePathVO};
use crate::platform::domain::{is_invalid_handle, is_violation, violation, DomainError};

verus! {

/// Abstract state of a [`PlatformDeviceAggregate`].
pub struct PlatformDeviceView {
    pub path: Seq<char>,
    pub handle: Option<i32>,
    pub name: Seq<char>,
    pub grabbed: bool,
    pub initialized: bool,
    pub version: nat,
}

impl PlatformDeviceView {
    /// The consistency rules `validate` checks: a non-empty path, a handle
    /// whenever initialized, and grabbing only when initialized.
    pub open spec fn wf(self) -> bool {
        &&& self.path.len() > 0
        &&& self.initialized ==> self.handle is Some
        &&& self.grabbed ==> self.initialized
    }

    /// The state after a successful `initialize` with `handle`.
    pub open spec fn initialized_with(self, handle: i32) -> Self {
        PlatformDeviceView { handle: Some(handle), initialized: true, version: self.version + 1, ..self }
    }

    /// The state after a successful `grab`.
    pub open spec fn grabbed_now(self) -> Self {
        PlatformDeviceView { grabbed: true, version: self.version + 1, ..self }
    }

    /// The state after a successful `release`.
    pub open spec fn released_now(self) -> Self {
        PlatformDeviceView { grabbed: false, version: self.version + 1, ..self }
    }

    /// The state after a successful `shutdown`.
    pub open spec fn shut_down(self) -> Self {
        PlatformDeviceView {
            handle: None,
            grabbed: false,
            initialized: false,
            version: self.version + 1,
            ..self
        }
    }
}

/// A lifecycle step of a platform device.
pub enum DeviceStep {
    /// `initialize` with a handle.
    Initialize(i32),
    /// `grab`.
    Grab,
    /// `release`.
    Release,
    /// `shutdown`.
    Shutdown,
}

impl PlatformDeviceView {
    /// The state after a step, successful or not: a refused step leaves the
    /// state as it was.
    pub open spec fn after(self, step: DeviceStep) -> Self {
        match step {
            DeviceStep::Initialize(h) => if !self.initialized && h >= 0 {
                self.initialized_with(h)
            } else {
                self
            },
            DeviceStep::Grab => if self.initialized && !self.grabbed {
                self.grabbed_now()
            } else {
                self
            },
            DeviceStep::Release => if self.grabbed {
                self.released_now()
            } else {
                self
            },
            DeviceStep::Shutdown => if self.initialized {
                self.shut_down()
            } else {
                self
            },
        }
    }

    /// The state after a sequence of steps.
    pub open spec fn after_all(self, steps: Seq<DeviceStep>) -> Self
        decreases steps.len(),
    {
        if steps.len() == 0 {
            self
        } else {
            self.after_all(steps.drop_last()).after(steps.last())
        }
    }

    /// Consistent, and holding a handle exactly while initialized.
    pub open spec fn settled(self) -> bool {
        &&& self.wf()
        &&& self.initialized <==> self.handle is Some
    }
}

/// Platform device aggregate root.
///
/// Encapsulates a platform-specific device with its path, handle, and
/// metadata, and keeps its lifecycle invariants.
pub struct PlatformDeviceAggregate {
    path: DevicePathVO,
    handle: Option<DeviceHandleVO>,
    name: String,
    grabbed: bool,
    initialized: bool,
    version: u64,
}

impl View for PlatformDeviceAggregate {
    type V = PlatformDeviceView;

    closed spec fn view(&self) -> PlatformDeviceView {
        PlatformDeviceView {
            path: self.path@,
            handle: match self.handle {
                Some(h) => Some(h@),
                None => None,
            },
            name: self.name@,
            grabbed: self.grabbed,
            initialized: self.initialized,
            version: self.version as nat,
        }
    }
}

impl PlatformDeviceAggregate {
    /// Creates a device that is neither initialized nor grabbed, at version 0.
    pub fn new(path: DevicePathVO, name: String) -> (r: Self)
        ensures
            r@ == (PlatformDeviceView {
                path: path@,
                handle: None,
                name: name@,
                grabbed: false,
                initialized: false,
                version: 0,
            }),
            r@.wf(),
    {
        proof {
            use_type_invariant(&path);
            DevicePathVO::lemma_non_empty(path);
        }
        PlatformDeviceAggregate {
            path,
            handle: None,
            name,
            grabbed: false,
            initialized: false,
            version: 0,
        }
    }

    /// The device path.
    pub fn path(&self) -> (r: &DevicePathVO)
        ensures
            r@ == self@.path,
    {
        &self.path
    }

    /// The device handle, if initialized.
    pub fn handle(&self) -> (r: Option<DeviceHandleVO>)
        ensures
            r is Some == self@.handle is Some,
            r matches Some(h) ==> Some(h@) == self@.handle,
    {
        self.handle
    }

    /// The device name.
    pub fn name(&self) -> (r: &str)
        ensures
            r@ == self@.name,
    {
        self.name.as_str()
    }

    /// Whether the device is grabbed.
    pub fn is_grabbed(&self) -> (r: bool)
        ensures
            r == self@.grabbed,
    {
        self.grabbed
    }

    /// Whether the device is initialized.
    pub fn is_initialized(&self) -> (r: bool)
        ensures
            r == self@.initialized,
    {
        self.initialized
    }

    /// The version counter, bumped by every successful state change.
    pub fn version(&self) -> (r: u64)
        ensures
            r == self@.version,
    {
        self.version
    }

    /// Initializes the device with a handle.
    pub fn initialize(&mut self, handle: DeviceHandleVO) -> (r: Result<(), DomainError>)
        requires
            old(self)@.version < u64::MAX || old(self)@.initialized || handle@ < 0,
        ensures
            final(self)@ == old(self)@.after(DeviceStep::Initialize(handle@)),
            old(self)@.initialized ==> is_violation(r, "Device already initialized"@)
                && final(self)@ == old(self)@,
            !old(self)@.initialized && handle@ < 0 ==> is_invalid_handle(
                r,
                "Cannot initialize with invalid handle"@,
            ) && final(self)@ == old(self)@,
            !old(self)@.initialized && handle@ >= 0 ==> r is Ok && final(self)@ == old(
                self,
            )@.initialized_with(handle@),
            old(self)@.wf() ==> final(self)@.wf(),
    {
        if self.initialized {
            return violation("Device already initialized");
        }
        if !handle.is_valid() {
            return Err(
                DomainError::InvalidDeviceHandle(
                    String::from_str("Cannot initialize with invalid handle"),
                ),
            );
        }
        self.handle = Some(handle);
        self.initialized = true;
        self.version = self.version + 1;
        Ok(())
    }

    /// Grabs exclusive access to the device.
    pub fn grab(&mut self) -> (r: Result<(), DomainError>)
        requires
            old(self)@.version < u64::MAX || !old(self)@.initialized || old(self)@.grabbed,
        ensures
            final(self)@ == old(self)@.after(DeviceStep::Grab),
            !old(self)@.initialized ==> is_violation(r, "Device not initialized"@)
                && final(self)@ == old(self)@,
            old(self)@.initialized && old(self)@.grabbed ==> is_violation(
                r,
                "Device already grabbed"@,
            ) && final(self)@ == old(self)@,
            old(self)@.initialized && !old(self)@.grabbed ==> r is Ok && final(self)@ == old(
                self,
            )@.grabbed_now(),
            old(self)@.wf() ==> final(self)@.wf(),
    {
        if !self.initialized {
            return violation("Device not initialized");
        }
        if self.grabbed {
            return violation("Device already grabbed");
        }
        self.grabbed = true;
        self.version = self.version + 1;
        Ok(())
    }

    /// Releases exclusive access to the device.
    pub fn release(&mut self) -> (r: Result<(), DomainError>)
        requires
            old(self)@.version < u64::MAX || !old(self)@.grabbed,
        ensures
            final(self)@ == old(self)@.after(DeviceStep::Release),
            !old(self)@.grabbed ==> is_violation(r, "Device not grabbed"@) && final(self)@
                == old(self)@,
            old(self)@.grabbed ==> r is Ok && final(self)@ == old(self)@.released_now(),
            old(self)@.wf() ==> final(self)@.wf(),
    {
        if !self.grabbed {
            return violation("Device not grabbed");
        }
        self.grabbed = false;
        self.version = self.version + 1;
        Ok(())
    }

    /// Shuts the device down: drops the handle and any grab.
    pub fn shutdown(&mut self) -> (r: Result<(), DomainError>)
        requires
            old(self)@.version < u64::MAX || !old(self)@.initialized,
        ensures
            final(self)@ == old(self)@.after(DeviceStep::Shutdown),
            !old(self)@.initialized ==> is_violation(r, "Device not initialized"@)
                && final(self)@ == old(self)@,
            old(self)@.initialized ==> r is Ok && final(self)@ == old(self)@.shut_down(),
            old(self)@.wf() ==> final(self)@.wf(),
    {
        if !self.initialized {
            return violation("Device not initialized");
        }
        if self.grabbed {
            self.grabbed = false;
        }
        self.handle = None;
        self.initialized = false;
        self.version = self.version + 1;
        Ok(())
    }

    /// Checks the device state against the aggregate's consistency rules.
    pub fn validate(&self) -> (r: Result<(), DomainError>)
        ensures
            r is Ok <==> self@.wf(),
            self@.path.len() > 0 && self@.initialized && self@.handle is None ==> is_violation(
                r,
                "Initialized device must have a handle"@,
            ),
            self@.path.len() > 0 && !(self@.initialized && self@.handle is None)
                && self@.grabbed && !self@.initialized ==> is_violation(
                r,
                "Grabbed device must be initialized"@,
            ),
    {
        if self.path.as_str().unicode_len() == 0 {
            return violation("Device path cannot be empty");
        }
        if self.initialized && self.handle.is_none() {
            return violation("Initialized device must have a handle");
        }
        if self.grabbed && !self.initialized {
            return violation("Grabbed device must be initialized");
        }
        Ok(())
    }
}

/// Grabbing a device and releasing it again leaves it as it was, two
/// versions on.
pub proof fn law_grab_release_round_trip(v: PlatformDeviceView)
    requires
        v.initialized,
        !v.grabbed,
    ensures
        v.grabbed_now().released_now() == (PlatformDeviceView { version: v.version + 2, ..v }),
{
}

/// Every successful lifecycle step keeps a consistent device consistent.
pub proof fn law_lifecycle_keeps_consistency(v: PlatformDeviceView, handle: i32)
    requires
        v.wf(),
    ensures
        !v.initialized && handle >= 0 ==> v.initialized_with(handle).wf(),
        v.initialized && !v.grabbed ==> v.grabbed_now().wf(),
        v.grabbed ==> v.released_now().wf(),
        v.initialized ==> v.shut_down().wf(),
{
}

/// Shutting a device down leaves it uninitialized, released and without
/// a handle, keeping its path and name, whatever state it was in.
pub proof fn law_shutdown_resets(v: PlatformDeviceView)
    requires
        v.initialized,
    ensures
        !v.shut_down().initialized,
        !v.shut_down().grabbed,
        v.shut_down().handle is None,
        v.shut_down().path == v.path,
        v.shut_down().name == v.name,
{
}

/// A new device is settled, and any sequence of lifecycle steps, each
/// succeeding or refused, keeps a settled device settled: it always
/// validates, is grabbed only while initialized, and holds a handle exactly
/// while initialized.
pub proof fn law_lifecycle_sequence_keeps_consistency(v: PlatformDeviceView, steps: Seq<DeviceStep>)
    requires
        v.settled(),
    ensures
        v.after_all(steps).settled(),
        v.after_all(steps).path == v.path,
    decreases steps.len(),
{
    if steps.len() > 0 {
        law_lifecycle_sequence_keeps_consistency(v, steps.drop_last());
    }
}

/// A freshly created device is settled.
pub proof fn law_new_device_settled(path: Seq<char>, name: Seq<char>)
    requires
        path.len() > 0,
    ensures
        (PlatformDeviceView {
            path,
            handle: None,
            name,
            grabbed: false,
            initialized: false,
            version: 0,
        }).settled(),
{
}

} // verus!
