//! Windows value objects: virtual key codes and hardware scan codes.

use vstd::prelude::*;
use crate::keys::KeyCode;
use crate::platform::windows::keycode::vk_of_key;

verus! {

/// Whether `vk` is a modifier virtual key (Shift, Ctrl, Alt, Win and their
/// left/right variants).
pub open spec fn is_modifier_vk(vk: u8) -> bool {
    vk == 0x10 || vk == 0x11 || vk == 0x12 || vk == 0x5B || vk == 0x5C || vk == 0xA0 || vk
        == 0xA1 || vk == 0xA2 || vk == 0xA3 || vk == 0xA4 || vk == 0xA5
}

/// Whether `vk` is a lock virtual key (CapsLock, NumLock, ScrollLock).
pub open spec fn is_lock_vk(vk: u8) -> bool {
    vk == 0x14 || vk == 0x90 || vk == 0x91
}

/// Virtual key code value object: a device-independent Windows key code.
#[derive(Debug, Clone, Copy, PartialEq, Eq, Hash)]
pub struct VirtualKeyCodeVO {
    vk: u8,
}

impl View for VirtualKeyCodeVO {
    type V = u8;

    closed spec fn view(&self) -> u8 {
        self.vk
    }
}

impl VirtualKeyCodeVO {
    /// Wraps a raw virtual key code.
    pub fn new(vk: u8) -> (r: Self)
        ensures
            r@ == vk,
    {
        VirtualKeyCodeVO { vk }
    }

    /// The raw virtual key code.
    pub fn as_raw(&self) -> (r: u8)
        ensures
            r == self@,
    {
        self.vk
    }

    /// Whether this is a modifier key.
    pub fn is_modifier(&self) -> (r: bool)
        ensures
            r == is_modifier_vk(self@),
    {
        let vk = self.vk;
        vk == 0x10 || vk == 0x11 || vk == 0x12 || vk == 0x5B || vk == 0x5C || vk == 0xA0 || vk
            == 0xA1 || vk == 0xA2 || vk == 0xA3 || vk == 0xA4 || vk == 0xA5
    }

    /// Whether this is a lock key.
    pub fn is_lock(&self) -> (r: bool)
        ensures
            r == is_lock_vk(self@),
    {
        self.vk == 0x14 || self.vk == 0x90 || self.vk == 0x91
    }

    /// Whether this is a valid virtual key code (0x01-0xFE).
    pub fn is_valid(&self) -> (r: bool)
        ensures
            r == (0x01 <= self@ <= 0xFE),
    {
        self.vk >= 0x01 && self.vk <= 0xFE
    }
}

impl From<u8> for VirtualKeyCodeVO {
    fn from(vk: u8) -> (r: Self) {
        VirtualKeyCodeVO::new(vk)
    }
}

impl vstd::std_specs::convert::FromSpecImpl<u8> for VirtualKeyCodeVO {
    open spec fn obeys_from_spec() -> bool {
        true
    }

    closed spec fn from_spec(v: u8) -> Self {
        VirtualKeyCodeVO { vk: v }
    }
}

/// Abstract content of a scan code: the raw code and its extended (E0) flag.
pub struct ScanCodeView {
    pub scan_code: u16,
    pub extended: bool,
}

/// The full scan code: the raw code with the E0 prefix bits when extended.
pub open spec fn full_scan_code(v: ScanCodeView) -> u16 {
    if v.extended {
        v.scan_code | 0xE000
    } else {
        v.scan_code
    }
}

/// The scan code a full 16-bit code decodes to: extended when all of the
/// E0 prefix bits are set, with the low nine bits as the raw code.
pub open spec fn decode_scan_code(code: u16) -> ScanCodeView {
    ScanCodeView { scan_code: code & 0x01FF, extended: (code & 0xE000) == 0xE000 }
}

/// Scan code value object: a hardware scan code identifying a physical key.
#[derive(Debug, Clone, Copy, PartialEq, Eq, Hash)]
pub struct ScanCodeVO {
    scan_code: u16,
    extended: bool,
}

impl View for ScanCodeVO {
    type V = ScanCodeView;

    closed spec fn view(&self) -> ScanCodeView {
        ScanCodeView { scan_code: self.scan_code, extended: self.extended }
    }
}

impl ScanCodeVO {
    /// Wraps a raw scan code and its extended flag.
    pub fn new(scan_code: u16, extended: bool) -> (r: Self)
        ensures
            r@ == (ScanCodeView { scan_code, extended }),
    {
        ScanCodeVO { scan_code, extended }
    }

    /// The raw scan code.
    pub fn as_raw(&self) -> (r: u16)
        ensures
            r == self@.scan_code,
    {
        self.scan_code
    }

    /// Whether this is an extended (E0-prefixed) scan code.
    pub fn is_extended(&self) -> (r: bool)
        ensures
            r == self@.extended,
    {
        self.extended
    }

    /// The full scan code including the E0 prefix when extended.
    pub fn as_full_scan_code(&self) -> (r: u16)
        ensures
            r == full_scan_code(self@),
    {
        if self.extended {
            self.scan_code | 0xE000
        } else {
            self.scan_code
        }
    }

    /// Whether this is a valid (non-zero) scan code.
    pub fn is_valid(&self) -> (r: bool)
        ensures
            r == (self@.scan_code != 0),
    {
        self.scan_code != 0
    }
}

impl From<u16> for ScanCodeVO {
    fn from(scan_code: u16) -> (r: Self)
        ensures
            r@ == decode_scan_code(scan_code),
    {
        let extended = (scan_code & 0xE000) == 0xE000;
        let raw_scan = scan_code & 0x01FF;
        ScanCodeVO::new(raw_scan, extended)
    }
}

impl vstd::std_specs::convert::FromSpecImpl<u16> for ScanCodeVO {
    open spec fn obeys_from_spec() -> bool {
        true
    }

    closed spec fn from_spec(v: u16) -> Self {
        ScanCodeVO { scan_code: v & 0x01FF, extended: (v & 0xE000) == 0xE000 }
    }
}

/// Decoding a full scan code gives back the scan code it was built from,
/// for every raw code that fits in the nine bits the decoder keeps.
pub proof fn lemma_scan_code_roundtrip(v: ScanCodeView)
    requires
        v.scan_code < 0x200,
    ensures
        decode_scan_code(full_scan_code(v)) == v,
{
    let s = v.scan_code;
    assert((s | 0xE000u16) & 0x01FFu16 == s && ((s | 0xE000u16) & 0xE000u16) == 0xE000u16)
        by (bit_vector)
        requires
            s < 0x200u16,
    ;
    assert((s & 0x01FFu16) == s && (s & 0xE000u16) == 0u16) by (bit_vector)
        requires
            s < 0x200u16,
    ;
}

/// The modifier virtual keys are the generic Shift, Ctrl and Alt keys
/// (0x10, 0x11, 0x12) and exactly the virtual keys of the left and right
/// Shift, Ctrl, Alt and Windows keys; the lock virtual keys are exactly
/// those of Caps Lock, Num Lock and Scroll Lock.
pub proof fn law_modifier_and_lock_keys(k: KeyCode, vk: u16)
    requires
        vk_of_key(k) == Some(vk),
    ensures
        is_modifier_vk(0x10) && is_modifier_vk(0x11) && is_modifier_vk(0x12),
        vk < 256,
        is_modifier_vk(vk as u8) <==> (k is LShift || k is RShift || k is LCtrl || k is RCtrl
            || k is LAlt || k is RAlt || k is LMeta || k is RMeta),
        is_lock_vk(vk as u8) <==> (k is CapsLock || k is NumLock || k is ScrollLock),
{
}

} // verus!
