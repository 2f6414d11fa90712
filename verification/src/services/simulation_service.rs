//! Simulation input: the key names a simulation reports and the built-in
//! scenarios it can run.

use vstd::prelude::*;
use crate::keys::{KeyCode, key_name};
use crate::text::str_eq;

verus! {

/// The key a single upper-case letter names.
pub open spec fn letter_key(c: char) -> Option<KeyCode> {
    match c {
        'A' => Some(KeyCode::A),
        'B' => Some(KeyCode::B),
        'C' => Some(KeyCode::C),
        'D' => Some(KeyCode::D),
        'E' => Some(KeyCode::E),
        'F' => Some(KeyCode::F),
        'G' => Some(KeyCode::G),
        'H' => Some(KeyCode::H),
        'I' => Some(KeyCode::I),
        'J' => Some(KeyCode::J),
        'K' => Some(KeyCode::K),
        'L' => Some(KeyCode::L),
        'M' => Some(KeyCode::M),
        'N' => Some(KeyCode::N),
        'O' => Some(KeyCode::O),
        'P' => Some(KeyCode::P),
        'Q' => Some(KeyCode::Q),
        'R' => Some(KeyCode::R),
        'S' => Some(KeyCode::S),
        'T' => Some(KeyCode::T),
        'U' => Some(KeyCode::U),
        'V' => Some(KeyCode::V),
        'W' => Some(KeyCode::W),
        'X' => Some(KeyCode::X),
        'Y' => Some(KeyCode::Y),
        'Z' => Some(KeyCode::Z),
        _ => None,
    }
}

/// The key a simulated event's key name stands for: a single upper-case
/// letter, `CapsLock`, `Shift`, `Ctrl`, `Alt`, `Space` or `Enter` (the
/// modifiers name their left-hand keys); any other name stands for `A`.
pub open spec fn simulated_key(name: Seq<char>) -> KeyCode {
    if name.len() == 1 && letter_key(name[0]) is Some {
        letter_key(name[0])->0
    } else if name == "CapsLock"@ {
        KeyCode::CapsLock
    } else if name == "Shift"@ {
        KeyCode::LShift
    } else if name == "Ctrl"@ {
        KeyCode::LCtrl
    } else if name == "Alt"@ {
        KeyCode::LAlt
    } else if name == "Space"@ {
        KeyCode::Space
    } else if name == "Enter"@ {
        KeyCode::Enter
    } else {
        KeyCode::A
    }
}

fn letter_key_of(c: char) -> (r: Option<KeyCode>)
    ensures
        r == letter_key(c),
{
    match c {
        'A' => Some(KeyCode::A),
        'B' => Some(KeyCode::B),
        'C' => Some(KeyCode::C),
        'D' => Some(KeyCode::D),
        'E' => Some(KeyCode::E),
        'F' => Some(KeyCode::F),
        'G' => Some(KeyCode::G),
        'H' => Some(KeyCode::H),
        'I' => Some(KeyCode::I),
        'J' => Some(KeyCode::J),
        'K' => Some(KeyCode::K),
        'L' => Some(KeyCode::L),
        'M' => Some(KeyCode::M),
        'N' => Some(KeyCode::N),
        'O' => Some(KeyCode::O),
        'P' => Some(KeyCode::P),
        'Q' => Some(KeyCode::Q),
        'R' => Some(KeyCode::R),
        'S' => Some(KeyCode::S),
        'T' => Some(KeyCode::T),
        'U' => Some(KeyCode::U),
        'V' => Some(KeyCode::V),
        'W' => Some(KeyCode::W),
        'X' => Some(KeyCode::X),
        'Y' => Some(KeyCode::Y),
        'Z' => Some(KeyCode::Z),
        _ => None,
    }
}

/// Converts the key name of a simulated output event to the key that is
/// sent on the event bus.
pub fn simulated_key_code(name: &str) -> (r: KeyCode)
    ensures
        r == simulated_key(name@),
{
    if name.unicode_len() == 1 {
        if let Some(k) = letter_key_of(name.get_char(0)) {
            return k;
        }
    }
    if str_eq(name, "CapsLock") {
        KeyCode::CapsLock
    } else if str_eq(name, "Shift") {
        KeyCode::LShift
    } else if str_eq(name, "Ctrl") {
        KeyCode::LCtrl
    } else if str_eq(name, "Alt") {
        KeyCode::LAlt
    } else if str_eq(name, "Space") {
        KeyCode::Space
    } else if str_eq(name, "Enter") {
        KeyCode::Enter
    } else {
        KeyCode::A
    }
}

/// The built-in test scenarios of the simulator.
#[derive(Debug, Clone, Copy, PartialEq, Eq, Structural)]
pub enum BuiltinScenario {
    /// A tap-hold key released before its threshold.
    TapHoldUnderThreshold,
    /// A tap-hold key held past its threshold.
    TapHoldOverThreshold,
    /// A tap-hold key interrupted by another key.
    PermissiveHold,
    /// Modifiers held on one device affecting another.
    CrossDeviceModifiers,
    /// A recorded macro played back.
    MacroSequence,
}

/// The scenario a name refers to, if any.
pub open spec fn scenario_named(name: Seq<char>) -> Option<BuiltinScenario> {
    if name == "tap-hold-under-threshold"@ {
        Some(BuiltinScenario::TapHoldUnderThreshold)
    } else if name == "tap-hold-over-threshold"@ {
        Some(BuiltinScenario::TapHoldOverThreshold)
    } else if name == "permissive-hold"@ {
        Some(BuiltinScenario::PermissiveHold)
    } else if name == "cross-device-modifiers"@ {
        Some(BuiltinScenario::CrossDeviceModifiers)
    } else if name == "macro-sequence"@ {
        Some(BuiltinScenario::MacroSequence)
    } else {
        None
    }
}

impl BuiltinScenario {
    /// Parses a scenario name; an unknown name gives `None`.
    pub fn from_name(name: &str) -> (r: Option<Self>)
        ensures
            r == scenario_named(name@),
    {
        if str_eq(name, "tap-hold-under-threshold") {
            Some(BuiltinScenario::TapHoldUnderThreshold)
        } else if str_eq(name, "tap-hold-over-threshold") {
            Some(BuiltinScenario::TapHoldOverThreshold)
        } else if str_eq(name, "permissive-hold") {
            Some(BuiltinScenario::PermissiveHold)
        } else if str_eq(name, "cross-device-modifiers") {
            Some(BuiltinScenario::CrossDeviceModifiers)
        } else if str_eq(name, "macro-sequence") {
            Some(BuiltinScenario::MacroSequence)
        } else {
            None
        }
    }
}

/// A single upper-case letter names the key of that same letter, the key
/// whose name is that letter; no other character names a key.
pub proof fn law_letters_name_their_own_key(c: char)
    ensures
        ('A' as u32) <= (c as u32) <= ('Z' as u32) ==> (letter_key(c) matches Some(k) && key_name(k)
            == seq![c]),
        ('A' as u32) <= (c as u32) <= ('Z' as u32) ==> simulated_key(seq![c]) == letter_key(c)->0,
        !(('A' as u32) <= (c as u32) <= ('Z' as u32)) ==> letter_key(c) is None,
{
    if ('A' as u32) <= (c as u32) <= ('Z' as u32) {
        reveal_strlit("A");
        reveal_strlit("B");
        reveal_strlit("C");
        reveal_strlit("D");
        reveal_strlit("E");
        reveal_strlit("F");
        reveal_strlit("G");
        reveal_strlit("H");
        reveal_strlit("I");
        reveal_strlit("J");
        reveal_strlit("K");
        reveal_strlit("L");
        reveal_strlit("M");
        reveal_strlit("N");
        reveal_strlit("O");
        reveal_strlit("P");
        reveal_strlit("Q");
        reveal_strlit("R");
        reveal_strlit("S");
        reveal_strlit("T");
        reveal_strlit("U");
        reveal_strlit("V");
        reveal_strlit("W");
        reveal_strlit("X");
        reveal_strlit("Y");
        reveal_strlit("Z");
        assert(seq![c].len() == 1 && seq![c][0] == c);
        assert(key_name(letter_key(c)->0) =~= seq![c]);
    }
}

} // verus!
