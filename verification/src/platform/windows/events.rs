//! The decisions the Windows input paths take on each key: which hook
//! events the daemon takes over, how an output event is injected, and how
//! a raw keyboard report is decoded.

use vstd::prelude::*;
use crate::keys::{KeyCode, KeyEvent, event_key};
use super::keycode::{key_of_vk, vk_of_key, vk_to_keycode, keycode_to_vk, is_extended_vk,
    is_extended_key};

verus! {

/// Window message of a key press.
pub const WM_KEYDOWN: u32 = 0x100;
/// Window message of a key release.
pub const WM_KEYUP: u32 = 0x101;
/// Window message of a system key press (with Alt).
pub const WM_SYSKEYDOWN: u32 = 0x104;
/// Window message of a system key release (with Alt).
pub const WM_SYSKEYUP: u32 = 0x105;
/// Low-level hook flag of an injected event.
pub const LLKHF_INJECTED: u32 = 0x10;
/// Extra information that marks events simulated as physical by tests.
pub const TEST_SIMULATED_PHYSICAL_MARKER: usize = 0x5445_5354;
/// Extra information that marks events injected by the daemon.
pub const DAEMON_OUTPUT_MARKER: usize = 0x4441_454D;
/// Keyboard input flag of an extended key.
pub const KEYEVENTF_EXTENDEDKEY: u32 = 0x1;
/// Keyboard input flag of a key release.
pub const KEYEVENTF_KEYUP: u32 = 0x2;
/// Keyboard input flag of an input given by scan code.
pub const KEYEVENTF_SCANCODE: u32 = 0x8;

/// The event a low-level keyboard hook takes over, if any: injected
/// events pass through unless tests marked them as physical; a mapped key
/// turns a press or release message into the daemon's event.
pub open spec fn hook_event_of(flags: u32, extra_info: usize, vk: u16, message: u32) -> Option<
    KeyEvent,
> {
    if flags & LLKHF_INJECTED != 0 && extra_info != TEST_SIMULATED_PHYSICAL_MARKER {
        None
    } else {
        match key_of_vk(vk) {
            Some(k) => if message == WM_KEYDOWN || message == WM_SYSKEYDOWN {
                Some(KeyEvent::Press(k))
            } else if message == WM_KEYUP || message == WM_SYSKEYUP {
                Some(KeyEvent::Release(k))
            } else {
                None
            },
            None => None,
        }
    }
}

/// Decides what a low-level keyboard hook does with a keyboard message:
/// `Some` event is sent to the daemon and the key swallowed; `None` passes
/// the message on to the next hook.
pub fn hook_event(flags: u32, extra_info: usize, vk: u16, message: u32) -> (r: Option<KeyEvent>)
    ensures
        r == hook_event_of(flags, extra_info, vk, message),
{
    if flags & LLKHF_INJECTED != 0 && extra_info != TEST_SIMULATED_PHYSICAL_MARKER {
        return None;
    }
    match vk_to_keycode(vk) {
        Some(k) => if message == WM_KEYDOWN || message == WM_SYSKEYDOWN {
            Some(KeyEvent::Press(k))
        } else if message == WM_KEYUP || message == WM_SYSKEYUP {
            Some(KeyEvent::Release(k))
        } else {
            None
        },
        None => None,
    }
}

/// The keyboard input flags for injecting an event on a virtual key.
pub open spec fn injection_flags_of(vk: u16, release: bool) -> u32 {
    (if release { KEYEVENTF_KEYUP } else { 0u32 }) | KEYEVENTF_SCANCODE | (if is_extended_vk(vk) {
        KEYEVENTF_EXTENDEDKEY
    } else {
        0u32
    })
}

/// The virtual key and input flags with which an output event is
/// injected; `None` for a key with no virtual key.
pub fn injection_input(event: KeyEvent) -> (r: Option<(u16, u32)>)
    ensures
        match vk_of_key(event_key(event)) {
            Some(vk) => r == Some((vk, injection_flags_of(vk, event is Release))),
            None => r is None,
        },
{
    let (keycode, release) = match event {
        KeyEvent::Press(k) => (k, false),
        KeyEvent::Release(k) => (k, true),
    };
    match keycode_to_vk(keycode) {
        Some(vk) => {
            let up: u32 = if release { KEYEVENTF_KEYUP } else { 0 };
            let ext: u32 = if is_extended_key(vk) { KEYEVENTF_EXTENDEDKEY } else { 0 };
            Some((vk, up | KEYEVENTF_SCANCODE | ext))
        },
        None => None,
    }
}

/// A decoded raw keyboard report: the full scan code and whether the key
/// was released.
#[derive(Debug, Clone, Copy, PartialEq, Eq, Structural)]
pub struct RawKey {
    /// Scan code, with the `0xE0` prefix folded in as `0xE000`.
    pub scancode: u32,
    /// Whether the report is a key release (break code).
    pub released: bool,
}

/// The full scan code of a raw keyboard report: the make code, with
/// `0xE000` added for an `E0`-prefixed key (flag bit 1).
pub open spec fn raw_scancode(make_code: u16, flags: u16) -> u32 {
    if flags & 2 != 0 {
        (make_code as u32) | 0xE000
    } else {
        make_code as u32
    }
}

/// Decodes a raw keyboard report; the overrun code `0xFF` gives `None`.
pub fn decode_raw_keyboard(make_code: u16, flags: u16) -> (r: Option<RawKey>)
    ensures
        raw_scancode(make_code, flags) == 0xFF ==> r is None,
        raw_scancode(make_code, flags) != 0xFF ==> r == Some(
            RawKey { scancode: raw_scancode(make_code, flags), released: flags & 1 != 0 },
        ),
{
    let is_break = (flags & 1) != 0;
    let is_e0 = (flags & 2) != 0;
    let mut scancode = make_code as u32;
    if is_e0 {
        scancode = scancode | 0xE000;
    }
    if scancode == 0xFF {
        return None;
    }
    Some(RawKey { scancode, released: is_break })
}

/// Largest raw input report accepted, in bytes; larger reports from a
/// misbehaving driver are ignored.
pub const MAX_RAW_INPUT_SIZE: u32 = 4096;

/// Whether a raw input report of `size` bytes is read.
pub fn raw_input_size_ok(size: u32) -> (r: bool)
    ensures
        r == (size <= MAX_RAW_INPUT_SIZE),
{
    size <= MAX_RAW_INPUT_SIZE
}

/// A change in the set of connected raw input devices.
#[derive(Debug, Clone, Copy, PartialEq, Eq, Structural)]
pub enum DeviceChange {
    /// A device arrived: it is added to the device table.
    Arrived,
    /// A device was removed: it is dropped from the device table.
    Removed,
}

/// The change a device-change notification reports: 1 is an arrival, 2 a
/// removal, anything else no change.
pub fn device_change(wparam: u32) -> (r: Option<DeviceChange>)
    ensures
        wparam == 1 ==> r == Some(DeviceChange::Arrived),
        wparam == 2 ==> r == Some(DeviceChange::Removed),
        wparam != 1 && wparam != 2 ==> r is None,
{
    if wparam == 1 {
        Some(DeviceChange::Arrived)
    } else if wparam == 2 {
        Some(DeviceChange::Removed)
    } else {
        None
    }
}

/// A keyboard message that no other program injected (or that tests
/// marked as physical) on a mapped virtual key is taken over: `WM_KEYDOWN`
/// (0x100) and `WM_SYSKEYDOWN` (0x104) press the key, `WM_KEYUP` (0x101)
/// and `WM_SYSKEYUP` (0x105) release it, and any other message is passed
/// on.
pub proof fn law_hook_takes_presses_and_releases(flags: u32, extra_info: usize, vk: u16, k: KeyCode, message: u32)
    requires
        key_of_vk(vk) == Some(k),
        flags & 0x10 == 0 || extra_info == 0x5445_5354,
    ensures
        hook_event_of(flags, extra_info, vk, 0x100) == Some(KeyEvent::Press(k)),
        hook_event_of(flags, extra_info, vk, 0x104) == Some(KeyEvent::Press(k)),
        hook_event_of(flags, extra_info, vk, 0x101) == Some(KeyEvent::Release(k)),
        hook_event_of(flags, extra_info, vk, 0x105) == Some(KeyEvent::Release(k)),
        message != 0x100 && message != 0x101 && message != 0x104 && message != 0x105
            ==> hook_event_of(flags, extra_info, vk, message) is None,
{
}

/// Messages injected by other programs (the injected flag 0x10 without
/// the tests' marker) and messages on unmapped virtual keys pass through;
/// whatever is taken over is an event on the key the virtual key names.
pub proof fn law_hook_passes_on_the_rest(flags: u32, extra_info: usize, vk: u16, message: u32)
    ensures
        flags & 0x10 != 0 && extra_info != 0x5445_5354 ==> hook_event_of(flags, extra_info, vk, message) is None,
        key_of_vk(vk) is None ==> hook_event_of(flags, extra_info, vk, message) is None,
        hook_event_of(flags, extra_info, vk, message) matches Some(e) ==> key_of_vk(vk) == Some(event_key(e)),
{
}

/// The injection flags of a key event: the extended-key bit (0x1) is set
/// exactly for extended virtual keys, on presses and releases alike; the
/// key-up bit (0x2) exactly for releases; the scan-code bit (0x8) always;
/// and no other bit.
pub proof fn law_injection_flags(vk: u16, release: bool)
    ensures
        (injection_flags_of(vk, release) & 0x1 != 0) == is_extended_vk(vk),
        (injection_flags_of(vk, release) & 0x2 != 0) == release,
        injection_flags_of(vk, release) & 0x8 != 0,
        injection_flags_of(vk, release) & 0xFFFF_FFF4 == 0,
        injection_flags_of(vk, true) == injection_flags_of(vk, false) | 0x2,
{
    let f = injection_flags_of(vk, release);
    let up: u32 = if release { 2 } else { 0 };
    let ext: u32 = if is_extended_vk(vk) { 1 } else { 0 };
    assert(f == up | 8u32 | ext);
    assert(up == 0 || up == 2);
    assert(ext == 0 || ext == 1);
    assert(((up | 8u32 | ext) & 0x1 != 0) == (ext == 1) && ((up | 8u32 | ext) & 0x2 != 0) == (up == 2)
        && (up | 8u32 | ext) & 0x8 != 0 && (up | 8u32 | ext) & 0xFFFF_FFF4 == 0) by (bit_vector)
        requires
            up == 0 || up == 2,
            ext == 0 || ext == 1,
    ;
    assert((2u32 | 8u32 | ext) == ((0u32 | 8u32 | ext) | 2u32)) by (bit_vector);
}

/// The virtual keys injected with the extended-key flag are exactly those
/// of the right Alt and Ctrl keys, Insert, Delete, Home, End, Page Up,
/// Page Down and the four arrows.
pub proof fn law_extended_keys(k: KeyCode, vk: u16)
    requires
        vk_of_key(k) == Some(vk),
    ensures
        is_extended_vk(vk) <==> (k is RAlt || k is RCtrl || k is Insert || k is Delete || k is Home
            || k is End || k is PageUp || k is PageDown || k is Up || k is Down || k is Left
            || k is Right),
{
}

/// The scan code of a raw report keeps the make code's low bits, and
/// carries the `E0` prefix bits (0xE000) exactly when the report's flag
/// bit 1 is set, for make codes below 0x2000.
pub proof fn law_raw_scancode_prefix(make_code: u16, flags: u16)
    requires
        make_code < 0x2000,
    ensures
        raw_scancode(make_code, flags) & 0x1FFF == make_code as u32,
        (raw_scancode(make_code, flags) & 0xE000 == 0xE000) == (flags & 2 != 0),
        raw_scancode(make_code, flags) < 0x10000,
{
    let m: u32 = make_code as u32;
    assert(m & 0x1FFF == m && m & 0xE000 == 0 && (m | 0xE000) & 0x1FFF == m && (m | 0xE000) & 0xE000
        == 0xE000 && (m | 0xE000) < 0x10000) by (bit_vector)
        requires
            m < 0x2000,
    ;
}

} // verus!
