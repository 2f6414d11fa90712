//! Device management service: where the device registry lives and how a
//! connected keyboard is presented together with what the registry records
//! of it.

use vstd::prelude::*;
use super::{join_path, joined};

verus! {

/// Device information returned by the service.
#[derive(Debug, Clone)]
pub struct DeviceInfo {
    /// Stable device identifier.
    pub id: String,
    /// Display name: the user's name for the device if one was set, else
    /// the name the system reports.
    pub name: String,
    /// System path of the device.
    pub path: String,
    /// Serial number, when the device reports one.
    pub serial: Option<String>,
    /// Whether the device is connected.
    pub active: bool,
    /// Keyboard layout set for the device, if any.
    pub layout: Option<String>,
}

/// What the device registry records of a device.
#[derive(Debug, Clone)]
pub struct RegistryEntry {
    /// The user's name for the device.
    pub name: String,
    /// The layout the user set for the device.
    pub layout: Option<String>,
}

/// Device management service.
pub struct DeviceService {
    registry_path: std::path::PathBuf,
}

impl DeviceService {
    /// Creates a service whose registry is `devices.json` in the given
    /// configuration directory.
    pub fn new(config_dir: std::path::PathBuf) -> (r: Self)
        ensures
            r.path() == joined(config_dir, "devices.json"@),
    {
        let registry_path = join_path(&config_dir, "devices.json");
        DeviceService { registry_path }
    }

    /// The path of the device registry this service was created with.
    pub closed spec fn path(&self) -> std::path::PathBuf {
        self.registry_path
    }

    /// The path of the device registry.
    pub fn registry_path(&self) -> (r: &std::path::PathBuf)
        ensures
            *r == self.path(),
    {
        &self.registry_path
    }

    /// Presents a connected keyboard: its identifier, path and serial as
    /// enumerated, the registry's name for it when there is an entry (else
    /// the enumerated name), and the registry's layout for it.
    pub fn connected_device(
        id: String,
        name: String,
        path: String,
        serial: Option<String>,
        entry: Option<RegistryEntry>,
    ) -> (r: DeviceInfo)
        ensures
            r.id == id,
            r.path == path,
            r.serial == serial,
            r.active,
            entry matches Some(e) ==> r.name == e.name && r.layout == e.layout,
            entry is None ==> r.name == name && r.layout is None,
    {
        match entry {
            Some(e) => DeviceInfo { id, name: e.name, path, serial, active: true, layout: e.layout },
            None => DeviceInfo { id, name, path, serial, active: true, layout: None },
        }
    }
}

} // verus!
