//! Linux aggregates: evdev input devices and uinput virtual output devices.

use vstd::prelude::*;
use super::value_objects::DeviceFdVO;
use crate::platform::domain::common::DevicePathVO;
use crate::platform::domain::{is_invalid_handle, is_violation, violation, DomainError};

verus! {

/// Abstract state of an [`EvdevDeviceAggregate`].
pub struct EvdevDeviceView {
    pub path: Seq<char>,
    pub fd: Option<i32>,
    pub name: Seq<char>,
    pub grabbed: bool,
    pub initialized: bool,
    pub version: nat,
}

impl EvdevDeviceView {
    /// The consistency rules `validate` checks.
    pub open spec fn wf(self) -> bool {
        &&& self.path.len() > 0
        &&& self.initialized ==> self.fd is Some
        &&& self.grabbed ==> self.initialized
    }

    /// The state after a successful `open` with descriptor `fd`.
    pub open spec fn opened_with(self, fd: i32) -> Self {
        EvdevDeviceView { fd: Some(fd), initialized: true, version: self.version + 1, ..self }
    }

    /// The state after a successful `grab`.
    pub open spec fn grabbed_now(self) -> Self {
        EvdevDeviceView { grabbed: true, version: self.version + 1, ..self }
    }

    /// The state after a successful `release`.
    pub open spec fn released_now(self) -> Self {
        EvdevDeviceView { grabbed: false, version: self.version + 1, ..self }
    }

    /// The state after a successful `close`.
    pub open spec fn closed_now(self) -> Self {
        EvdevDeviceView {
            fd: None,
            grabbed: false,
            initialized: false,
            version: self.version + 1,
            ..self
        }
    }
}

/// A lifecycle step of an evdev device.
pub enum EvdevStep {
    /// `open` with a descriptor.
    Open(i32),
    /// `grab`.
    Grab,
    /// `release`.
    Release,
    /// `close`.
    Close,
}

impl EvdevDeviceView {
    /// The state after a step, successful or not: a refused step leaves the
    /// state as it was.
    pub open spec fn after(self, step: EvdevStep) -> Self {
        match step {
            EvdevStep::Open(fd) => if !self.initialized && fd >= 0 {
                self.opened_with(fd)
            } else {
                self
            },
            EvdevStep::Grab => if self.initialized && !self.grabbed {
                self.grabbed_now()
            } else {
                self
            },
            EvdevStep::Release => if self.grabbed {
                self.released_now()
            } else {
                self
            },
            EvdevStep::Close => if self.initialized {
                self.closed_now()
            } else {
                self
            },
        }
    }

    /// The state after a sequence of steps.
    pub open spec fn after_all(self, steps: Seq<EvdevStep>) -> Self
        decreases steps.len(),
    {
        if steps.len() == 0 {
            self
        } else {
            self.after_all(steps.drop_last()).after(steps.last())
        }
    }

    /// Consistent, and holding a descriptor exactly while open.
    pub open spec fn settled(self) -> bool {
        &&& self.wf()
        &&& self.initialized <==> self.fd is Some
    }
}

/// Evdev device aggregate root: a Linux evdev input device with its file
/// descriptor, path and capture state.
pub struct EvdevDeviceAggregate {
    path: DevicePathVO,
    fd: Option<DeviceFdVO>,
    name: String,
    grabbed: bool,
    initialized: bool,
    version: u64,
}

impl View for EvdevDeviceAggregate {
    type V = EvdevDeviceView;

    closed spec fn view(&self) -> EvdevDeviceView {
        EvdevDeviceView {
            path: self.path@,
            fd: match self.fd {
                Some(f) => Some(f@),
                None => None,
            },
            name: self.name@,
            grabbed: self.grabbed,
            initialized: self.initialized,
            version: self.version as nat,
        }
    }
}

impl EvdevDeviceAggregate {
    /// Creates a closed, ungrabbed device at version 0.
    pub fn new(path: DevicePathVO, name: String) -> (r: Self)
        ensures
            r@ == (EvdevDeviceView {
                path: path@,
                fd: None,
                name: name@,
                grabbed: false,
                initialized: false,
                version: 0,
            }),
            r@.wf(),
    {
        proof {
            use_type_invariant(&path);
            DevicePathVO::lemma_non_empty(path);
        }
        EvdevDeviceAggregate { path, fd: None, name, grabbed: false, initialized: false, version: 0 }
    }

    /// The device path.
    pub fn path(&self) -> (r: &DevicePathVO)
        ensures
            r@ == self@.path,
    {
        &self.path
    }

    /// The file descriptor, if open.
    pub fn fd(&self) -> (r: Option<DeviceFdVO>)
        ensures
            r is Some == self@.fd is Some,
            r matches Some(f) ==> Some(f@) == self@.fd,
    {
        self.fd
    }

    /// The device name.
    pub fn name(&self) -> (r: &str)
        ensures
            r@ == self@.name,
    {
        self.name.as_str()
    }

    /// Whether the device is grabbed.
    pub fn is_grabbed(&self) -> (r: bool)
        ensures
            r == self@.grabbed,
    {
        self.grabbed
    }

    /// Whether the device is open.
    pub fn is_initialized(&self) -> (r: bool)
        ensures
            r == self@.initialized,
    {
        self.initialized
    }

    /// The version counter, bumped by every successful state change.
    pub fn version(&self) -> (r: u64)
        ensures
            r == self@.version,
    {
        self.version
    }

    /// Opens the device with a file descriptor.
    pub fn open(&mut self, fd: DeviceFdVO) -> (r: Result<(), DomainError>)
        requires
            old(self)@.version < u64::MAX || old(self)@.initialized || fd@ < 0,
        ensures
            final(self)@ == old(self)@.after(EvdevStep::Open(fd@)),
            old(self)@.initialized ==> is_violation(r, "Device already opened"@) && final(self)@
                == old(self)@,
            !old(self)@.initialized && fd@ < 0 ==> is_invalid_handle(
                r,
                "Cannot open with invalid file descriptor"@,
            ) && final(self)@ == old(self)@,
            !old(self)@.initialized && fd@ >= 0 ==> r is Ok && final(self)@ == old(
                self,
            )@.opened_with(fd@),
            old(self)@.wf() ==> final(self)@.wf(),
    {
        if self.initialized {
            return violation("Device already opened");
        }
        if !fd.is_valid() {
            return Err(
                DomainError::InvalidDeviceHandle(
                    String::from_str("Cannot open with invalid file descriptor"),
                ),
            );
        }
        self.fd = Some(fd);
        self.initialized = true;
        self.version = self.version + 1;
        Ok(())
    }

    /// Grabs exclusive access (EVIOCGRAB).
    pub fn grab(&mut self) -> (r: Result<(), DomainError>)
        requires
            old(self)@.version < u64::MAX || !old(self)@.initialized || old(self)@.grabbed,
        ensures
            final(self)@ == old(self)@.after(EvdevStep::Grab),
            !old(self)@.initialized ==> is_violation(r, "Device not initialized"@)
                && final(self)@ == old(self)@,
            old(self)@.initialized && old(self)@.grabbed ==> is_violation(
                r,
                "Device already grabbed"@,
            ) && final(self)@ == old(self)@,
            old(self)@.initialized && !old(self)@.grabbed ==> r is Ok && final(self)@ == old(
                self,
            )@.grabbed_now(),
            old(self)@.wf() ==> final(self)@.wf(),
    {
        if !self.initialized {
            return violation("Device not initialized");
        }
        if self.grabbed {
            return violation("Device already grabbed");
        }
        self.grabbed = true;
        self.version = self.version + 1;
        Ok(())
    }

    /// Releases exclusive access.
    pub fn release(&mut self) -> (r: Result<(), DomainError>)
        requires
            old(self)@.version < u64::MAX || !old(self)@.grabbed,
        ensures
            final(self)@ == old(self)@.after(EvdevStep::Release),
            !old(self)@.grabbed ==> is_violation(r, "Device not grabbed"@) && final(self)@
                == old(self)@,
            old(self)@.grabbed ==> r is Ok && final(self)@ == old(self)@.released_now(),
            old(self)@.wf() ==> final(self)@.wf(),
    {
        if !self.grabbed {
            return violation("Device not grabbed");
        }
        self.grabbed = false;
        self.version = self.version + 1;
        Ok(())
    }

    /// Closes the device, dropping its descriptor and any grab.
    pub fn close(&mut self) -> (r: Result<(), DomainError>)
        requires
            old(self)@.version < u64::MAX || !old(self)@.initialized,
        ensures
            final(self)@ == old(self)@.after(EvdevStep::Close),
            !old(self)@.initialized ==> is_violation(r, "Device not initialized"@)
                && final(self)@ == old(self)@,
            old(self)@.initialized ==> r is Ok && final(self)@ == old(self)@.closed_now(),
            old(self)@.wf() ==> final(self)@.wf(),
    {
        if !self.initialized {
            return violation("Device not initialized");
        }
        if self.grabbed {
            self.grabbed = false;
        }
        self.fd = None;
        self.initialized = false;
        self.version = self.version + 1;
        Ok(())
    }

    /// Checks the device state against the aggregate's consistency rules.
    pub fn validate(&self) -> (r: Result<(), DomainError>)
        ensures
            r is Ok <==> self@.wf(),
            self@.path.len() > 0 && self@.initialized && self@.fd is None ==> is_violation(
                r,
                "Initialized device must have a file descriptor"@,
            ),
            self@.path.len() > 0 && !(self@.initialized && self@.fd is None) && self@.grabbed
                && !self@.initialized ==> is_violation(r, "Grabbed device must be initialized"@),
    {
        if self.path.as_str().unicode_len() == 0 {
            return violation("Device path cannot be empty");
        }
        if self.initialized && self.fd.is_none() {
            return violation("Initialized device must have a file descriptor");
        }
        if self.grabbed && !self.initialized {
            return violation("Grabbed device must be initialized");
        }
        Ok(())
    }
}

/// Abstract state of a [`UinputDeviceAggregate`].
pub struct UinputDeviceView {
    pub name: Seq<char>,
    pub fd: Option<i32>,
    pub initialized: bool,
    pub created: bool,
    pub version: nat,
}

impl UinputDeviceView {
    /// The consistency rules `validate` checks.
    pub open spec fn wf(self) -> bool {
        &&& self.name.len() > 0
        &&& self.initialized ==> self.fd is Some
        &&& self.created ==> self.initialized
    }

    /// The rules on the state that every operation keeps (the name never
    /// changes, so a nameless device stays nameless).
    pub open spec fn lifecycle_ok(self) -> bool {
        &&& self.initialized ==> self.fd is Some
        &&& self.created ==> self.initialized
    }

    /// The state after a successful `open` with descriptor `fd`.
    pub open spec fn opened_with(self, fd: i32) -> Self {
        UinputDeviceView { fd: Some(fd), initialized: true, version: self.version + 1, ..self }
    }

    /// The state after a successful `create`.
    pub open spec fn created_now(self) -> Self {
        UinputDeviceView { created: true, version: self.version + 1, ..self }
    }

    /// The state after a successful `destroy`.
    pub open spec fn destroyed_now(self) -> Self {
        UinputDeviceView { created: false, version: self.version + 1, ..self }
    }

    /// The state after a successful `close`.
    pub open spec fn closed_now(self) -> Self {
        UinputDeviceView {
            fd: None,
            created: false,
            initialized: false,
            version: self.version + 1,
            ..self
        }
    }
}

/// A lifecycle step of a virtual output device.
pub enum UinputStep {
    /// `open` with a descriptor.
    Open(i32),
    /// `create`.
    Create,
    /// `destroy`.
    Destroy,
    /// `close`.
    Close,
}

impl UinputDeviceView {
    /// The state after a step, successful or not: a refused step leaves the
    /// state as it was.
    pub open spec fn after(self, step: UinputStep) -> Self {
        match step {
            UinputStep::Open(fd) => if !self.initialized && fd >= 0 {
                self.opened_with(fd)
            } else {
                self
            },
            UinputStep::Create => if self.initialized && !self.created {
                self.created_now()
            } else {
                self
            },
            UinputStep::Destroy => if self.created {
                self.destroyed_now()
            } else {
                self
            },
            UinputStep::Close => if self.initialized {
                self.closed_now()
            } else {
                self
            },
        }
    }

    /// The state after a sequence of steps.
    pub open spec fn after_all(self, steps: Seq<UinputStep>) -> Self
        decreases steps.len(),
    {
        if steps.len() == 0 {
            self
        } else {
            self.after_all(steps.drop_last()).after(steps.last())
        }
    }

    /// The lifecycle rules hold, and a descriptor is held exactly while open.
    pub open spec fn settled(self) -> bool {
        &&& self.lifecycle_ok()
        &&& self.initialized <==> self.fd is Some
    }
}

/// Uinput device aggregate root: a Linux uinput virtual output device.
pub struct UinputDeviceAggregate {
    name: String,
    fd: Option<DeviceFdVO>,
    initialized: bool,
    created: bool,
    version: u64,
}

impl View for UinputDeviceAggregate {
    type V = UinputDeviceView;

    closed spec fn view(&self) -> UinputDeviceView {
        UinputDeviceView {
            name: self.name@,
            fd: match self.fd {
                Some(f) => Some(f@),
                None => None,
            },
            initialized: self.initialized,
            created: self.created,
            version: self.version as nat,
        }
    }
}

impl UinputDeviceAggregate {
    /// Creates a closed, not-yet-created device at version 0.
    pub fn new(name: String) -> (r: Self)
        ensures
            r@ == (UinputDeviceView {
                name: name@,
                fd: None,
                initialized: false,
                created: false,
                version: 0,
            }),
            r@.lifecycle_ok(),
    {
        UinputDeviceAggregate { name, fd: None, initialized: false, created: false, version: 0 }
    }

    /// The device name.
    pub fn name(&self) -> (r: &str)
        ensures
            r@ == self@.name,
    {
        self.name.as_str()
    }

    /// The file descriptor, if open.
    pub fn fd(&self) -> (r: Option<DeviceFdVO>)
        ensures
            r is Some == self@.fd is Some,
            r matches Some(f) ==> Some(f@) == self@.fd,
    {
        self.fd
    }

    /// Whether the device is open.
    pub fn is_initialized(&self) -> (r: bool)
        ensures
            r == self@.initialized,
    {
        self.initialized
    }

    /// Whether the virtual device has been created (UI_DEV_CREATE).
    pub fn is_created(&self) -> (r: bool)
        ensures
            r == self@.created,
    {
        self.created
    }

    /// The version counter, bumped by every successful state change.
    pub fn version(&self) -> (r: u64)
        ensures
            r == self@.version,
    {
        self.version
    }

    /// Opens `/dev/uinput` with a file descriptor.
    pub fn open(&mut self, fd: DeviceFdVO) -> (r: Result<(), DomainError>)
        requires
            old(self)@.version < u64::MAX || old(self)@.initialized || fd@ < 0,
        ensures
            final(self)@ == old(self)@.after(UinputStep::Open(fd@)),
            old(self)@.initialized ==> is_violation(r, "Device already opened"@) && final(self)@
                == old(self)@,
            !old(self)@.initialized && fd@ < 0 ==> is_invalid_handle(
                r,
                "Cannot open with invalid file descriptor"@,
            ) && final(self)@ == old(self)@,
            !old(self)@.initialized && fd@ >= 0 ==> r is Ok && final(self)@ == old(
                self,
            )@.opened_with(fd@),
            old(self)@.lifecycle_ok() ==> final(self)@.lifecycle_ok(),
    {
        if self.initialized {
            return violation("Device already opened");
        }
        if !fd.is_valid() {
            return Err(
                DomainError::InvalidDeviceHandle(
                    String::from_str("Cannot open with invalid file descriptor"),
                ),
            );
        }
        self.fd = Some(fd);
        self.initialized = true;
        self.version = self.version + 1;
        Ok(())
    }

    /// Creates the virtual device (UI_DEV_CREATE).
    pub fn create(&mut self) -> (r: Result<(), DomainError>)
        requires
            old(self)@.version < u64::MAX || !old(self)@.initialized || old(self)@.created,
        ensures
            final(self)@ == old(self)@.after(UinputStep::Create),
            !old(self)@.initialized ==> is_violation(r, "Device not initialized"@)
                && final(self)@ == old(self)@,
            old(self)@.initialized && old(self)@.created ==> is_violation(
                r,
                "Device already created"@,
            ) && final(self)@ == old(self)@,
            old(self)@.initialized && !old(self)@.created ==> r is Ok && final(self)@ == old(
                self,
            )@.created_now(),
            old(self)@.lifecycle_ok() ==> final(self)@.lifecycle_ok(),
    {
        if !self.initialized {
            return violation("Device not initialized");
        }
        if self.created {
            return violation("Device already created");
        }
        self.created = true;
        self.version = self.version + 1;
        Ok(())
    }

    /// Destroys the virtual device (UI_DEV_DESTROY).
    pub fn destroy(&mut self) -> (r: Result<(), DomainError>)
        requires
            old(self)@.version < u64::MAX || !old(self)@.created,
        ensures
            final(self)@ == old(self)@.after(UinputStep::Destroy),
            !old(self)@.created ==> is_violation(r, "Device not created"@) && final(self)@
                == old(self)@,
            old(self)@.created ==> r is Ok && final(self)@ == old(self)@.destroyed_now(),
            old(self)@.lifecycle_ok() ==> final(self)@.lifecycle_ok(),
    {
        if !self.created {
            return violation("Device not created");
        }
        self.created = false;
        self.version = self.version + 1;
        Ok(())
    }

    /// Closes the device, destroying it first if created.
    pub fn close(&mut self) -> (r: Result<(), DomainError>)
        requires
            old(self)@.version < u64::MAX || !old(self)@.initialized,
        ensures
            final(self)@ == old(self)@.after(UinputStep::Close),
            !old(self)@.initialized ==> is_violation(r, "Device not initialized"@)
                && final(self)@ == old(self)@,
            old(self)@.initialized ==> r is Ok && final(self)@ == old(self)@.closed_now(),
            old(self)@.lifecycle_ok() ==> final(self)@.lifecycle_ok(),
    {
        if !self.initialized {
            return violation("Device not initialized");
        }
        if self.created {
            self.created = false;
        }
        self.fd = None;
        self.initialized = false;
        self.version = self.version + 1;
        Ok(())
    }

    /// Checks the device state against the aggregate's consistency rules.
    pub fn validate(&self) -> (r: Result<(), DomainError>)
        ensures
            r is Ok <==> self@.wf(),
            self@.name.len() == 0 ==> is_violation(r, "Device name cannot be empty"@),
            self@.name.len() > 0 && self@.initialized && self@.fd is None ==> is_violation(
                r,
                "Initialized device must have a file descriptor"@,
            ),
            self@.name.len() > 0 && !(self@.initialized && self@.fd is None) && self@.created
                && !self@.initialized ==> is_violation(r, "Created device must be initialized"@),
    {
        if self.name.as_str().unicode_len() == 0 {
            return violation("Device name cannot be empty");
        }
        if self.initialized && self.fd.is_none() {
            return violation("Initialized device must have a file descriptor");
        }
        if self.created && !self.initialized {
            return violation("Created device must be initialized");
        }
        Ok(())
    }
}

/// Grabbing an evdev device and releasing it again leaves it as it was,
/// two versions on.
pub proof fn law_evdev_grab_release_round_trip(v: EvdevDeviceView)
    requires
        v.initialized,
        !v.grabbed,
    ensures
        v.grabbed_now().released_now() == (EvdevDeviceView { version: v.version + 2, ..v }),
{
}

/// Every successful step of an evdev device keeps a consistent device
/// consistent.
pub proof fn law_evdev_lifecycle_keeps_consistency(v: EvdevDeviceView, fd: i32)
    requires
        v.wf(),
    ensures
        !v.initialized && fd >= 0 ==> v.opened_with(fd).wf(),
        v.initialized && !v.grabbed ==> v.grabbed_now().wf(),
        v.grabbed ==> v.released_now().wf(),
        v.initialized ==> v.closed_now().wf(),
{
}

/// Creating a virtual device and destroying it again leaves it as it was,
/// two versions on.
pub proof fn law_uinput_create_destroy_round_trip(v: UinputDeviceView)
    requires
        v.initialized,
        !v.created,
    ensures
        v.created_now().destroyed_now() == (UinputDeviceView { version: v.version + 2, ..v }),
{
}

/// Every successful step of a virtual device keeps a consistent device
/// consistent, and closing it always leaves it closed and destroyed.
pub proof fn law_uinput_lifecycle_keeps_consistency(v: UinputDeviceView, fd: i32)
    requires
        v.wf(),
    ensures
        !v.initialized && fd >= 0 ==> v.opened_with(fd).wf(),
        v.initialized && !v.created ==> v.created_now().wf(),
        v.created ==> v.destroyed_now().wf(),
        v.initialized ==> v.closed_now().wf() && !v.closed_now().created,
{
}

/// Any sequence of steps, each succeeding or refused, keeps a settled
/// evdev device settled: it always validates, is grabbed only while open,
/// and holds a descriptor exactly while open.  A new device is settled.
pub proof fn law_evdev_sequence_keeps_consistency(v: EvdevDeviceView, steps: Seq<EvdevStep>)
    requires
        v.settled(),
    ensures
        v.after_all(steps).settled(),
        v.after_all(steps).path == v.path,
        (EvdevDeviceView { fd: None, grabbed: false, initialized: false, version: 0, ..v }).settled(),
    decreases steps.len(),
{
    if steps.len() > 0 {
        law_evdev_sequence_keeps_consistency(v, steps.drop_last());
    }
}

/// Any sequence of steps, each succeeding or refused, keeps a settled
/// virtual device settled and its name unchanged, so it validates exactly
/// when its name is not empty.  A new device is settled.
pub proof fn law_uinput_sequence_keeps_consistency(v: UinputDeviceView, steps: Seq<UinputStep>)
    requires
        v.settled(),
    ensures
        v.after_all(steps).settled(),
        v.after_all(steps).name == v.name,
        v.after_all(steps).wf() <==> v.name.len() > 0,
        (UinputDeviceView { fd: None, created: false, initialized: false, version: 0, ..v }).settled(),
    decreases steps.len(),
{
    if steps.len() > 0 {
        law_uinput_sequence_keeps_consistency(v, steps.drop_last());
    }
}

} // verus!
