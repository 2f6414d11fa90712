//! The table of raw input devices known to the Windows platform, keyed by
//! their raw input handle, and what the library reads from device paths.

use vstd::prelude::*;
use crate::text::{concat2, split_by, split_chars, string_from_chars, pieces_view, sep_pred, Separators};
use std::collections::HashMap;
use vstd::std_specs::hash::spec_hash_map_iter;
use vstd::std_specs::iter::IteratorSpec;

verus! {

broadcast use vstd::std_specs::hash::group_hash_axioms;

/// Information about a raw input device.
#[derive(Debug)]
pub struct DeviceInfo {
    pub handle: usize,
    pub path: String,
    pub serial: Option<String>,
}

impl Clone for DeviceInfo {
    fn clone(&self) -> (r: Self)
        ensures
            r == *self,
    {
        DeviceInfo {
            handle: self.handle,
            path: self.path.clone(),
            serial: match &self.serial {
                Some(s) => Some(s.clone()),
                None => None,
            },
        }
    }
}

/// The identifier of a device: its serial when it has one, else its path.
pub open spec fn device_id_of(info: DeviceInfo) -> Seq<char> {
    match info.serial {
        Some(s) => "serial-"@ + s@,
        None => "path-"@ + info.path@,
    }
}

impl DeviceInfo {
    /// The stable identifier of the device: `serial-<serial>` when the
    /// device reports a serial, `path-<path>` otherwise.
    pub fn device_id(&self) -> (r: String)
        ensures
            r@ == device_id_of(*self),
    {
        match &self.serial {
            Some(s) => concat2("serial-", s.as_str()),
            None => concat2("path-", self.path.as_str()),
        }
    }
}

/// The serial (instance ID) a device path carries: the third `#`-separated
/// field, when there is one.
pub open spec fn serial_of_path(path: Seq<char>) -> Option<Seq<char>> {
    let parts = split_by(path, sep_pred(Separators::Hash));
    if parts.len() >= 3 {
        Some(parts[2])
    } else {
        None
    }
}

/// The Windows device table, keyed by raw input handle.
pub struct DeviceMap {
    devices: HashMap<usize, DeviceInfo>,
}

impl View for DeviceMap {
    type V = Map<usize, DeviceInfo>;

    closed spec fn view(&self) -> Map<usize, DeviceInfo> {
        self.devices@
    }
}

impl DeviceMap {
    /// The table is finite and every device is filed under its own handle.
    pub open spec fn wf(&self) -> bool {
        &&& self@.dom().finite()
        &&& forall|h: usize| #[trigger] self@.contains_key(h) ==> self@[h].handle == h
    }

    /// An empty table.
    pub fn new() -> (r: Self)
        ensures
            r.wf(),
            r@ == Map::<usize, DeviceInfo>::empty(),
    {
        DeviceMap { devices: HashMap::new() }
    }

    /// Registers a device directly, without asking the operating system
    /// (used to model devices in tests).
    pub fn add_synthetic_device(&mut self, handle: usize, path: String, serial: Option<String>)
        requires
            old(self).wf(),
        ensures
            final(self).wf(),
            final(self)@ == old(self)@.insert(handle, DeviceInfo { handle, path, serial }),
    {
        self.devices.insert(handle, DeviceInfo { handle, path, serial });
    }

    /// Adds or updates a device whose path the operating system reported;
    /// its serial is read from the path.
    pub fn add_device(&mut self, handle: usize, path: String) -> (r: DeviceInfo)
        requires
            old(self).wf(),
        ensures
            final(self).wf(),
            r.handle == handle,
            r.path@ == path@,
            r.serial matches Some(s) ==> serial_of_path(path@) == Some(s@),
            r.serial is None ==> serial_of_path(path@) is None,
            final(self)@ == old(self)@.insert(handle, r),
    {
        let serial = self.extract_serial(path.as_str());
        let info = DeviceInfo { handle, path: path.clone(), serial };
        let r = info.clone();
        self.devices.insert(handle, info);
        r
    }

    /// Removes a device from the table.
    pub fn remove_device(&mut self, handle: usize)
        requires
            old(self).wf(),
        ensures
            final(self).wf(),
            final(self)@ == old(self)@.remove(handle),
    {
        self.devices.remove(&handle);
    }

    /// Looks up a device by handle.
    pub fn get(&self, handle: usize) -> (r: Option<DeviceInfo>)
        requires
            self.wf(),
        ensures
            r is Some == self@.contains_key(handle),
            r matches Some(info) ==> info == self@[handle],
    {
        match self.devices.get(&handle) {
            Some(info) => Some(info.clone()),
            None => None,
        }
    }

    /// Every tracked device, each once.
    pub fn all(&self) -> (r: Vec<DeviceInfo>)
        requires
            self.wf(),
        ensures
            self@.dom().finite(),
            r@.len() == self@.len(),
            forall|i: int| 0 <= i < r@.len() ==> self@.contains_key(#[trigger] r@[i].handle)
                && self@[r@[i].handle] == r@[i],
            forall|h: usize| self@.contains_key(h) ==> exists|i: int| 0 <= i < r@.len() && r@[i].handle == h,
    {
        let mut out: Vec<DeviceInfo> = Vec::new();
        let ghost pairs = spec_hash_map_iter(&self.devices).remaining();
        for (k, v) in it: self.devices.iter()
            invariant
                out@.len() == it.index(),
                it.seq() == pairs,
                pairs == spec_hash_map_iter(&self.devices).remaining(),
                forall|i: int| 0 <= i < out@.len() ==> out@[i] == *pairs[i].1,
        {
            out.push(v.clone());
        }
        proof {
            let m = self.devices@;
            assert forall|i: int| 0 <= i < out@.len() implies self@.contains_key(#[trigger] out@[i].handle)
                && self@[out@[i].handle] == out@[i] by {
                assert(m.contains_key(*pairs[i].0) && m[*pairs[i].0] == *pairs[i].1);
            }
            assert forall|h: usize| self@.contains_key(h) implies exists|i: int| 0 <= i < out@.len() && out@[i].handle == h by {
                assert(pairs.contains((&h, &m[h])));
                let i = choose|i: int| 0 <= i < pairs.len() && pairs[i] == (&h, &m[h]);
                assert(out@[i].handle == h);
            }
        }
        out
    }

    /// The serial (instance ID) in a device path: its third `#`-separated
    /// field, e.g. `7&2a00c76d&0&0000` in
    /// `\\?\HID#VID_046D&PID_C52B&MI_00#7&2a00c76d&0&0000#{...}`.
    pub fn extract_serial(&self, path: &str) -> (r: Option<String>)
        ensures
            r is Some == serial_of_path(path@) is Some,
            r matches Some(s) ==> serial_of_path(path@) == Some(s@),
    {
        let parts = split_chars(path, Separators::Hash);
        if parts.len() >= 3 {
            let s = string_from_chars(&parts[2]);
            assert(pieces_view(parts@)[2] == parts@[2]@);
            return Some(s);
        }
        None
    }
}

/// After a device is added, looking its handle up gives that device;
/// after a handle is removed, looking it up gives nothing; other handles
/// are unaffected by either.
pub proof fn law_device_table_read_after_write(
    table: Map<usize, DeviceInfo>,
    device: DeviceInfo,
    removed: usize,
    other: usize,
)
    requires
        other != device.handle,
        other != removed,
    ensures
        table.insert(device.handle, device).contains_key(device.handle),
        table.insert(device.handle, device)[device.handle] == device,
        !table.remove(removed).contains_key(removed),
        table.insert(device.handle, device).contains_key(other) == table.contains_key(other),
        table.contains_key(other) ==> table.insert(device.handle, device)[other] == table[other],
        table.remove(removed).contains_key(other) == table.contains_key(other),
        table.contains_key(other) ==> table.remove(removed)[other] == table[other],
{
}

/// Adding a device to a finite table grows it by one when its handle is
/// new and keeps its size when the handle was already filed; removing a
/// filed handle shrinks it by one.
pub proof fn law_device_table_count(table: Map<usize, DeviceInfo>, device: DeviceInfo, removed: usize)
    requires
        table.dom().finite(),
    ensures
        table.insert(device.handle, device).dom().finite(),
        table.insert(device.handle, device).len() == table.len() + if table.contains_key(
            device.handle,
        ) {
            0int
        } else {
            1int
        },
        table.contains_key(removed) ==> table.remove(removed).len() == table.len() - 1,
{
}

} // verus!
