//! Key code tables between the daemon's key model and Linux evdev codes.
//!
//! Every key of the model has exactly one evdev code and the two tables are
//! inverse to each other; both facts are proved below.

use vstd::prelude::*;
use crate::keys::KeyCode;

verus! {

/// The evdev code (`KEY_*` in `linux/input-event-codes.h`) of each key.
pub open spec fn evdev_code(k: KeyCode) -> u16 {
    match k {
        KeyCode::A => 30,
        KeyCode::B => 48,
        KeyCode::C => 46,
        KeyCode::D => 32,
        KeyCode::E => 18,
        KeyCode::F => 33,
        KeyCode::G => 34,
        KeyCode::H => 35,
        KeyCode::I => 23,
        KeyCode::J => 36,
        KeyCode::K => 37,
        KeyCode::L => 38,
        KeyCode::M => 50,
        KeyCode::N => 49,
        KeyCode::O => 24,
        KeyCode::P => 25,
        KeyCode::Q => 16,
        KeyCode::R => 19,
        KeyCode::S => 31,
        KeyCode::T => 20,
        KeyCode::U => 22,
        KeyCode::V => 47,
        KeyCode::W => 17,
        KeyCode::X => 45,
        KeyCode::Y => 21,
        KeyCode::Z => 44,
        KeyCode::Num0 => 11,
        KeyCode::Num1 => 2,
        KeyCode::Num2 => 3,
        KeyCode::Num3 => 4,
        KeyCode::Num4 => 5,
        KeyCode::Num5 => 6,
        KeyCode::Num6 => 7,
        KeyCode::Num7 => 8,
        KeyCode::Num8 => 9,
        KeyCode::Num9 => 10,
        KeyCode::F1 => 59,
        KeyCode::F2 => 60,
        KeyCode::F3 => 61,
        KeyCode::F4 => 62,
        KeyCode::F5 => 63,
        KeyCode::F6 => 64,
        KeyCode::F7 => 65,
        KeyCode::F8 => 66,
        KeyCode::F9 => 67,
        KeyCode::F10 => 68,
        KeyCode::F11 => 87,
        KeyCode::F12 => 88,
        KeyCode::F13 => 183,
        KeyCode::F14 => 184,
        KeyCode::F15 => 185,
        KeyCode::F16 => 186,
        KeyCode::F17 => 187,
        KeyCode::F18 => 188,
        KeyCode::F19 => 189,
        KeyCode::F20 => 190,
        KeyCode::F21 => 191,
        KeyCode::F22 => 192,
        KeyCode::F23 => 193,
        KeyCode::F24 => 194,
        KeyCode::LShift => 42,
        KeyCode::RShift => 54,
        KeyCode::LCtrl => 29,
        KeyCode::RCtrl => 97,
        KeyCode::LAlt => 56,
        KeyCode::RAlt => 100,
        KeyCode::LMeta => 125,
        KeyCode::RMeta => 126,
        KeyCode::Escape => 1,
        KeyCode::Enter => 28,
        KeyCode::Backspace => 14,
        KeyCode::Tab => 15,
        KeyCode::Space => 57,
        KeyCode::CapsLock => 58,
        KeyCode::NumLock => 69,
        KeyCode::ScrollLock => 70,
        KeyCode::PrintScreen => 99,
        KeyCode::Pause => 119,
        KeyCode::Insert => 110,
        KeyCode::Delete => 111,
        KeyCode::Home => 102,
        KeyCode::End => 107,
        KeyCode::PageUp => 104,
        KeyCode::PageDown => 109,
        KeyCode::Left => 105,
        KeyCode::Right => 106,
        KeyCode::Up => 103,
        KeyCode::Down => 108,
        KeyCode::LeftBracket => 26,
        KeyCode::RightBracket => 27,
        KeyCode::Backslash => 43,
        KeyCode::Semicolon => 39,
        KeyCode::Quote => 40,
        KeyCode::Comma => 51,
        KeyCode::Period => 52,
        KeyCode::Slash => 53,
        KeyCode::Grave => 41,
        KeyCode::Minus => 12,
        KeyCode::Equal => 13,
        KeyCode::Numpad0 => 82,
        KeyCode::Numpad1 => 79,
        KeyCode::Numpad2 => 80,
        KeyCode::Numpad3 => 81,
        KeyCode::Numpad4 => 75,
        KeyCode::Numpad5 => 76,
        KeyCode::Numpad6 => 77,
        KeyCode::Numpad7 => 71,
        KeyCode::Numpad8 => 72,
        KeyCode::Numpad9 => 73,
        KeyCode::NumpadDivide => 98,
        KeyCode::NumpadMultiply => 55,
        KeyCode::NumpadSubtract => 74,
        KeyCode::NumpadAdd => 78,
        KeyCode::NumpadEnter => 96,
        KeyCode::NumpadDecimal => 83,
        KeyCode::Mute => 113,
        KeyCode::VolumeDown => 114,
        KeyCode::VolumeUp => 115,
        KeyCode::MediaPlayPause => 164,
        KeyCode::MediaStop => 166,
        KeyCode::MediaPrevious => 165,
        KeyCode::MediaNext => 163,
        KeyCode::Power => 116,
        KeyCode::Sleep => 142,
        KeyCode::Wake => 143,
        KeyCode::BrowserBack => 158,
        KeyCode::BrowserForward => 159,
        KeyCode::BrowserRefresh => 173,
        KeyCode::BrowserStop => 128,
        KeyCode::BrowserSearch => 217,
        KeyCode::BrowserFavorites => 156,
        KeyCode::BrowserHome => 172,
        KeyCode::AppMail => 155,
        KeyCode::AppCalculator => 140,
        KeyCode::AppMyComputer => 157,
        KeyCode::Menu => 127,
        KeyCode::Help => 138,
        KeyCode::Select => 353,
        KeyCode::Execute => 134,
        KeyCode::Undo => 131,
        KeyCode::Redo => 182,
        KeyCode::Cut => 137,
        KeyCode::Copy => 133,
        KeyCode::Paste => 135,
        KeyCode::Find => 136,
        KeyCode::Zenkaku => 85,
        KeyCode::Katakana => 90,
        KeyCode::Hiragana => 91,
        KeyCode::Henkan => 92,
        KeyCode::Muhenkan => 94,
        KeyCode::Yen => 124,
        KeyCode::Ro => 89,
        KeyCode::KatakanaHiragana => 93,
        KeyCode::Hangeul => 122,
        KeyCode::Hanja => 123,
        KeyCode::Iso102nd => 86,
    }
}

/// The key an evdev code stands for, if the daemon knows it.
pub open spec fn key_of_evdev(code: u16) -> Option<KeyCode> {
    match code {
        30 => Some(KeyCode::A),
        48 => Some(KeyCode::B),
        46 => Some(KeyCode::C),
        32 => Some(KeyCode::D),
        18 => Some(KeyCode::E),
        33 => Some(KeyCode::F),
        34 => Some(KeyCode::G),
        35 => Some(KeyCode::H),
        23 => Some(KeyCode::I),
        36 => Some(KeyCode::J),
        37 => Some(KeyCode::K),
        38 => Some(KeyCode::L),
        50 => Some(KeyCode::M),
        49 => Some(KeyCode::N),
        24 => Some(KeyCode::O),
        25 => Some(KeyCode::P),
        16 => Some(KeyCode::Q),
        19 => Some(KeyCode::R),
        31 => Some(KeyCode::S),
        20 => Some(KeyCode::T),
        22 => Some(KeyCode::U),
        47 => Some(KeyCode::V),
        17 => Some(KeyCode::W),
        45 => Some(KeyCode::X),
        21 => Some(KeyCode::Y),
        44 => Some(KeyCode::Z),
        11 => Some(KeyCode::Num0),
        2 => Some(KeyCode::Num1),
        3 => Some(KeyCode::Num2),
        4 => Some(KeyCode::Num3),
        5 => Some(KeyCode::Num4),
        6 => Some(KeyCode::Num5),
        7 => Some(KeyCode::Num6),
        8 => Some(KeyCode::Num7),
        9 => Some(KeyCode::Num8),
        10 => Some(KeyCode::Num9),
        59 => Some(KeyCode::F1),
        60 => Some(KeyCode::F2),
        61 => Some(KeyCode::F3),
        62 => Some(KeyCode::F4),
        63 => Some(KeyCode::F5),
        64 => Some(KeyCode::F6),
        65 => Some(KeyCode::F7),
        66 => Some(KeyCode::F8),
        67 => Some(KeyCode::F9),
        68 => Some(KeyCode::F10),
        87 => Some(KeyCode::F11),
        88 => Some(KeyCode::F12),
        183 => Some(KeyCode::F13),
        184 => Some(KeyCode::F14),
        185 => Some(KeyCode::F15),
        186 => Some(KeyCode::F16),
        187 => Some(KeyCode::F17),
        188 => Some(KeyCode::F18),
        189 => Some(KeyCode::F19),
        190 => Some(KeyCode::F20),
        191 => Some(KeyCode::F21),
        192 => Some(KeyCode::F22),
        193 => Some(KeyCode::F23),
        194 => Some(KeyCode::F24),
        42 => Some(KeyCode::LShift),
        54 => Some(KeyCode::RShift),
        29 => Some(KeyCode::LCtrl),
        97 => Some(KeyCode::RCtrl),
        56 => Some(KeyCode::LAlt),
        100 => Some(KeyCode::RAlt),
        125 => Some(KeyCode::LMeta),
        126 => Some(KeyCode::RMeta),
        1 => Some(KeyCode::Escape),
        28 => Some(KeyCode::Enter),
        14 => Some(KeyCode::Backspace),
        15 => Some(KeyCode::Tab),
        57 => Some(KeyCode::Space),
        58 => Some(KeyCode::CapsLock),
        69 => Some(KeyCode::NumLock),
        70 => Some(KeyCode::ScrollLock),
        99 => Some(KeyCode::PrintScreen),
        119 => Some(KeyCode::Pause),
        110 => Some(KeyCode::Insert),
        111 => Some(KeyCode::Delete),
        102 => Some(KeyCode::Home),
        107 => Some(KeyCode::End),
        104 => Some(KeyCode::PageUp),
        109 => Some(KeyCode::PageDown),
        105 => Some(KeyCode::Left),
        106 => Some(KeyCode::Right),
        103 => Some(KeyCode::Up),
        108 => Some(KeyCode::Down),
        26 => Some(KeyCode::LeftBracket),
        27 => Some(KeyCode::RightBracket),
        43 => Some(KeyCode::Backslash),
        39 => Some(KeyCode::Semicolon),
        40 => Some(KeyCode::Quote),
        51 => Some(KeyCode::Comma),
        52 => Some(KeyCode::Period),
        53 => Some(KeyCode::Slash),
        41 => Some(KeyCode::Grave),
        12 => Some(KeyCode::Minus),
        13 => Some(KeyCode::Equal),
        82 => Some(KeyCode::Numpad0),
        79 => Some(KeyCode::Numpad1),
        80 => Some(KeyCode::Numpad2),
        81 => Some(KeyCode::Numpad3),
        75 => Some(KeyCode::Numpad4),
        76 => Some(KeyCode::Numpad5),
        77 => Some(KeyCode::Numpad6),
        71 => Some(KeyCode::Numpad7),
        72 => Some(KeyCode::Numpad8),
        73 => Some(KeyCode::Numpad9),
        98 => Some(KeyCode::NumpadDivide),
        55 => Some(KeyCode::NumpadMultiply),
        74 => Some(KeyCode::NumpadSubtract),
        78 => Some(KeyCode::NumpadAdd),
        96 => Some(KeyCode::NumpadEnter),
        83 => Some(KeyCode::NumpadDecimal),
        113 => Some(KeyCode::Mute),
        114 => Some(KeyCode::VolumeDown),
        115 => Some(KeyCode::VolumeUp),
        164 => Some(KeyCode::MediaPlayPause),
        166 => Some(KeyCode::MediaStop),
        165 => Some(KeyCode::MediaPrevious),
        163 => Some(KeyCode::MediaNext),
        116 => Some(KeyCode::Power),
        142 => Some(KeyCode::Sleep),
        143 => Some(KeyCode::Wake),
        158 => Some(KeyCode::BrowserBack),
        159 => Some(KeyCode::BrowserForward),
        173 => Some(KeyCode::BrowserRefresh),
        128 => Some(KeyCode::BrowserStop),
        217 => Some(KeyCode::BrowserSearch),
        156 => Some(KeyCode::BrowserFavorites),
        172 => Some(KeyCode::BrowserHome),
        155 => Some(KeyCode::AppMail),
        140 => Some(KeyCode::AppCalculator),
        157 => Some(KeyCode::AppMyComputer),
        127 => Some(KeyCode::Menu),
        138 => Some(KeyCode::Help),
        353 => Some(KeyCode::Select),
        134 => Some(KeyCode::Execute),
        131 => Some(KeyCode::Undo),
        182 => Some(KeyCode::Redo),
        137 => Some(KeyCode::Cut),
        133 => Some(KeyCode::Copy),
        135 => Some(KeyCode::Paste),
        136 => Some(KeyCode::Find),
        85 => Some(KeyCode::Zenkaku),
        90 => Some(KeyCode::Katakana),
        91 => Some(KeyCode::Hiragana),
        92 => Some(KeyCode::Henkan),
        94 => Some(KeyCode::Muhenkan),
        124 => Some(KeyCode::Yen),
        89 => Some(KeyCode::Ro),
        93 => Some(KeyCode::KatakanaHiragana),
        122 => Some(KeyCode::Hangeul),
        123 => Some(KeyCode::Hanja),
        86 => Some(KeyCode::Iso102nd),
        _ => None,
    }
}

/// Converts an evdev key code to a key; `None` for codes the daemon does
/// not know (those are passed through untouched).
pub fn evdev_to_keycode(code: u16) -> (r: Option<KeyCode>)
    ensures
        r == key_of_evdev(code),
{
    match code {
        30 => Some(KeyCode::A),
        48 => Some(KeyCode::B),
        46 => Some(KeyCode::C),
        32 => Some(KeyCode::D),
        18 => Some(KeyCode::E),
        33 => Some(KeyCode::F),
        34 => Some(KeyCode::G),
        35 => Some(KeyCode::H),
        23 => Some(KeyCode::I),
        36 => Some(KeyCode::J),
        37 => Some(KeyCode::K),
        38 => Some(KeyCode::L),
        50 => Some(KeyCode::M),
        49 => Some(KeyCode::N),
        24 => Some(KeyCode::O),
        25 => Some(KeyCode::P),
        16 => Some(KeyCode::Q),
        19 => Some(KeyCode::R),
        31 => Some(KeyCode::S),
        20 => Some(KeyCode::T),
        22 => Some(KeyCode::U),
        47 => Some(KeyCode::V),
        17 => Some(KeyCode::W),
        45 => Some(KeyCode::X),
        21 => Some(KeyCode::Y),
        44 => Some(KeyCode::Z),
        11 => Some(KeyCode::Num0),
        2 => Some(KeyCode::Num1),
        3 => Some(KeyCode::Num2),
        4 => Some(KeyCode::Num3),
        5 => Some(KeyCode::Num4),
        6 => Some(KeyCode::Num5),
        7 => Some(KeyCode::Num6),
        8 => Some(KeyCode::Num7),
        9 => Some(KeyCode::Num8),
        10 => Some(KeyCode::Num9),
        59 => Some(KeyCode::F1),
        60 => Some(KeyCode::F2),
        61 => Some(KeyCode::F3),
        62 => Some(KeyCode::F4),
        63 => Some(KeyCode::F5),
        64 => Some(KeyCode::F6),
        65 => Some(KeyCode::F7),
        66 => Some(KeyCode::F8),
        67 => Some(KeyCode::F9),
        68 => Some(KeyCode::F10),
        87 => Some(KeyCode::F11),
        88 => Some(KeyCode::F12),
        183 => Some(KeyCode::F13),
        184 => Some(KeyCode::F14),
        185 => Some(KeyCode::F15),
        186 => Some(KeyCode::F16),
        187 => Some(KeyCode::F17),
        188 => Some(KeyCode::F18),
        189 => Some(KeyCode::F19),
        190 => Some(KeyCode::F20),
        191 => Some(KeyCode::F21),
        192 => Some(KeyCode::F22),
        193 => Some(KeyCode::F23),
        194 => Some(KeyCode::F24),
        42 => Some(KeyCode::LShift),
        54 => Some(KeyCode::RShift),
        29 => Some(KeyCode::LCtrl),
        97 => Some(KeyCode::RCtrl),
        56 => Some(KeyCode::LAlt),
        100 => Some(KeyCode::RAlt),
        125 => Some(KeyCode::LMeta),
        126 => Some(KeyCode::RMeta),
        1 => Some(KeyCode::Escape),
        28 => Some(KeyCode::Enter),
        14 => Some(KeyCode::Backspace),
        15 => Some(KeyCode::Tab),
        57 => Some(KeyCode::Space),
        58 => Some(KeyCode::CapsLock),
        69 => Some(KeyCode::NumLock),
        70 => Some(KeyCode::ScrollLock),
        99 => Some(KeyCode::PrintScreen),
        119 => Some(KeyCode::Pause),
        110 => Some(KeyCode::Insert),
        111 => Some(KeyCode::Delete),
        102 => Some(KeyCode::Home),
        107 => Some(KeyCode::End),
        104 => Some(KeyCode::PageUp),
        109 => Some(KeyCode::PageDown),
        105 => Some(KeyCode::Left),
        106 => Some(KeyCode::Right),
        103 => Some(KeyCode::Up),
        108 => Some(KeyCode::Down),
        26 => Some(KeyCode::LeftBracket),
        27 => Some(KeyCode::RightBracket),
        43 => Some(KeyCode::Backslash),
        39 => Some(KeyCode::Semicolon),
        40 => Some(KeyCode::Quote),
        51 => Some(KeyCode::Comma),
        52 => Some(KeyCode::Period),
        53 => Some(KeyCode::Slash),
        41 => Some(KeyCode::Grave),
        12 => Some(KeyCode::Minus),
        13 => Some(KeyCode::Equal),
        82 => Some(KeyCode::Numpad0),
        79 => Some(KeyCode::Numpad1),
        80 => Some(KeyCode::Numpad2),
        81 => Some(KeyCode::Numpad3),
        75 => Some(KeyCode::Numpad4),
        76 => Some(KeyCode::Numpad5),
        77 => Some(KeyCode::Numpad6),
        71 => Some(KeyCode::Numpad7),
        72 => Some(KeyCode::Numpad8),
        73 => Some(KeyCode::Numpad9),
        98 => Some(KeyCode::NumpadDivide),
        55 => Some(KeyCode::NumpadMultiply),
        74 => Some(KeyCode::NumpadSubtract),
        78 => Some(KeyCode::NumpadAdd),
        96 => Some(KeyCode::NumpadEnter),
        83 => Some(KeyCode::NumpadDecimal),
        113 => Some(KeyCode::Mute),
        114 => Some(KeyCode::VolumeDown),
        115 => Some(KeyCode::VolumeUp),
        164 => Some(KeyCode::MediaPlayPause),
        166 => Some(KeyCode::MediaStop),
        165 => Some(KeyCode::MediaPrevious),
        163 => Some(KeyCode::MediaNext),
        116 => Some(KeyCode::Power),
        142 => Some(KeyCode::Sleep),
        143 => Some(KeyCode::Wake),
        158 => Some(KeyCode::BrowserBack),
        159 => Some(KeyCode::BrowserForward),
        173 => Some(KeyCode::BrowserRefresh),
        128 => Some(KeyCode::BrowserStop),
        217 => Some(KeyCode::BrowserSearch),
        156 => Some(KeyCode::BrowserFavorites),
        172 => Some(KeyCode::BrowserHome),
        155 => Some(KeyCode::AppMail),
        140 => Some(KeyCode::AppCalculator),
        157 => Some(KeyCode::AppMyComputer),
        127 => Some(KeyCode::Menu),
        138 => Some(KeyCode::Help),
        353 => Some(KeyCode::Select),
        134 => Some(KeyCode::Execute),
        131 => Some(KeyCode::Undo),
        182 => Some(KeyCode::Redo),
        137 => Some(KeyCode::Cut),
        133 => Some(KeyCode::Copy),
        135 => Some(KeyCode::Paste),
        136 => Some(KeyCode::Find),
        85 => Some(KeyCode::Zenkaku),
        90 => Some(KeyCode::Katakana),
        91 => Some(KeyCode::Hiragana),
        92 => Some(KeyCode::Henkan),
        94 => Some(KeyCode::Muhenkan),
        124 => Some(KeyCode::Yen),
        89 => Some(KeyCode::Ro),
        93 => Some(KeyCode::KatakanaHiragana),
        122 => Some(KeyCode::Hangeul),
        123 => Some(KeyCode::Hanja),
        86 => Some(KeyCode::Iso102nd),
        _ => None,
    }
}

/// Converts a key to its evdev key code; every key has one.
pub fn keycode_to_evdev(keycode: KeyCode) -> (r: u16)
    ensures
        r == evdev_code(keycode),
{
    match keycode {
        KeyCode::A => 30,
        KeyCode::B => 48,
        KeyCode::C => 46,
        KeyCode::D => 32,
        KeyCode::E => 18,
        KeyCode::F => 33,
        KeyCode::G => 34,
        KeyCode::H => 35,
        KeyCode::I => 23,
        KeyCode::J => 36,
        KeyCode::K => 37,
        KeyCode::L => 38,
        KeyCode::M => 50,
        KeyCode::N => 49,
        KeyCode::O => 24,
        KeyCode::P => 25,
        KeyCode::Q => 16,
        KeyCode::R => 19,
        KeyCode::S => 31,
        KeyCode::T => 20,
        KeyCode::U => 22,
        KeyCode::V => 47,
        KeyCode::W => 17,
        KeyCode::X => 45,
        KeyCode::Y => 21,
        KeyCode::Z => 44,
        KeyCode::Num0 => 11,
        KeyCode::Num1 => 2,
        KeyCode::Num2 => 3,
        KeyCode::Num3 => 4,
        KeyCode::Num4 => 5,
        KeyCode::Num5 => 6,
        KeyCode::Num6 => 7,
        KeyCode::Num7 => 8,
        KeyCode::Num8 => 9,
        KeyCode::Num9 => 10,
        KeyCode::F1 => 59,
        KeyCode::F2 => 60,
        KeyCode::F3 => 61,
        KeyCode::F4 => 62,
        KeyCode::F5 => 63,
        KeyCode::F6 => 64,
        KeyCode::F7 => 65,
        KeyCode::F8 => 66,
        KeyCode::F9 => 67,
        KeyCode::F10 => 68,
        KeyCode::F11 => 87,
        KeyCode::F12 => 88,
        KeyCode::F13 => 183,
        KeyCode::F14 => 184,
        KeyCode::F15 => 185,
        KeyCode::F16 => 186,
        KeyCode::F17 => 187,
        KeyCode::F18 => 188,
        KeyCode::F19 => 189,
        KeyCode::F20 => 190,
        KeyCode::F21 => 191,
        KeyCode::F22 => 192,
        KeyCode::F23 => 193,
        KeyCode::F24 => 194,
        KeyCode::LShift => 42,
        KeyCode::RShift => 54,
        KeyCode::LCtrl => 29,
        KeyCode::RCtrl => 97,
        KeyCode::LAlt => 56,
        KeyCode::RAlt => 100,
        KeyCode::LMeta => 125,
        KeyCode::RMeta => 126,
        KeyCode::Escape => 1,
        KeyCode::Enter => 28,
        KeyCode::Backspace => 14,
        KeyCode::Tab => 15,
        KeyCode::Space => 57,
        KeyCode::CapsLock => 58,
        KeyCode::NumLock => 69,
        KeyCode::ScrollLock => 70,
        KeyCode::PrintScreen => 99,
        KeyCode::Pause => 119,
        KeyCode::Insert => 110,
        KeyCode::Delete => 111,
        KeyCode::Home => 102,
        KeyCode::End => 107,
        KeyCode::PageUp => 104,
        KeyCode::PageDown => 109,
        KeyCode::Left => 105,
        KeyCode::Right => 106,
        KeyCode::Up => 103,
        KeyCode::Down => 108,
        KeyCode::LeftBracket => 26,
        KeyCode::RightBracket => 27,
        KeyCode::Backslash => 43,
        KeyCode::Semicolon => 39,
        KeyCode::Quote => 40,
        KeyCode::Comma => 51,
        KeyCode::Period => 52,
        KeyCode::Slash => 53,
        KeyCode::Grave => 41,
        KeyCode::Minus => 12,
        KeyCode::Equal => 13,
        KeyCode::Numpad0 => 82,
        KeyCode::Numpad1 => 79,
        KeyCode::Numpad2 => 80,
        KeyCode::Numpad3 => 81,
        KeyCode::Numpad4 => 75,
        KeyCode::Numpad5 => 76,
        KeyCode::Numpad6 => 77,
        KeyCode::Numpad7 => 71,
        KeyCode::Numpad8 => 72,
        KeyCode::Numpad9 => 73,
        KeyCode::NumpadDivide => 98,
        KeyCode::NumpadMultiply => 55,
        KeyCode::NumpadSubtract => 74,
        KeyCode::NumpadAdd => 78,
        KeyCode::NumpadEnter => 96,
        KeyCode::NumpadDecimal => 83,
        KeyCode::Mute => 113,
        KeyCode::VolumeDown => 114,
        KeyCode::VolumeUp => 115,
        KeyCode::MediaPlayPause => 164,
        KeyCode::MediaStop => 166,
        KeyCode::MediaPrevious => 165,
        KeyCode::MediaNext => 163,
        KeyCode::Power => 116,
        KeyCode::Sleep => 142,
        KeyCode::Wake => 143,
        KeyCode::BrowserBack => 158,
        KeyCode::BrowserForward => 159,
        KeyCode::BrowserRefresh => 173,
        KeyCode::BrowserStop => 128,
        KeyCode::BrowserSearch => 217,
        KeyCode::BrowserFavorites => 156,
        KeyCode::BrowserHome => 172,
        KeyCode::AppMail => 155,
        KeyCode::AppCalculator => 140,
        KeyCode::AppMyComputer => 157,
        KeyCode::Menu => 127,
        KeyCode::Help => 138,
        KeyCode::Select => 353,
        KeyCode::Execute => 134,
        KeyCode::Undo => 131,
        KeyCode::Redo => 182,
        KeyCode::Cut => 137,
        KeyCode::Copy => 133,
        KeyCode::Paste => 135,
        KeyCode::Find => 136,
        KeyCode::Zenkaku => 85,
        KeyCode::Katakana => 90,
        KeyCode::Hiragana => 91,
        KeyCode::Henkan => 92,
        KeyCode::Muhenkan => 94,
        KeyCode::Yen => 124,
        KeyCode::Ro => 89,
        KeyCode::KatakanaHiragana => 93,
        KeyCode::Hangeul => 122,
        KeyCode::Hanja => 123,
        KeyCode::Iso102nd => 86,
    }
}

/// Converting a key to evdev and back gives the same key.
pub proof fn lemma_evdev_roundtrip(k: KeyCode)
    ensures
        key_of_evdev(evdev_code(k)) == Some(k),
{
    match k {
        KeyCode::A => {},
        KeyCode::B => {},
        KeyCode::C => {},
        KeyCode::D => {},
        KeyCode::E => {},
        KeyCode::F => {},
        KeyCode::G => {},
        KeyCode::H => {},
        KeyCode::I => {},
        KeyCode::J => {},
        KeyCode::K => {},
        KeyCode::L => {},
        KeyCode::M => {},
        KeyCode::N => {},
        KeyCode::O => {},
        KeyCode::P => {},
        KeyCode::Q => {},
        KeyCode::R => {},
        KeyCode::S => {},
        KeyCode::T => {},
        KeyCode::U => {},
        KeyCode::V => {},
        KeyCode::W => {},
        KeyCode::X => {},
        KeyCode::Y => {},
        KeyCode::Z => {},
        KeyCode::Num0 => {},
        KeyCode::Num1 => {},
        KeyCode::Num2 => {},
        KeyCode::Num3 => {},
        KeyCode::Num4 => {},
        KeyCode::Num5 => {},
        KeyCode::Num6 => {},
        KeyCode::Num7 => {},
        KeyCode::Num8 => {},
        KeyCode::Num9 => {},
        KeyCode::F1 => {},
        KeyCode::F2 => {},
        KeyCode::F3 => {},
        KeyCode::F4 => {},
        KeyCode::F5 => {},
        KeyCode::F6 => {},
        KeyCode::F7 => {},
        KeyCode::F8 => {},
        KeyCode::F9 => {},
        KeyCode::F10 => {},
        KeyCode::F11 => {},
        KeyCode::F12 => {},
        KeyCode::F13 => {},
        KeyCode::F14 => {},
        KeyCode::F15 => {},
        KeyCode::F16 => {},
        KeyCode::F17 => {},
        KeyCode::F18 => {},
        KeyCode::F19 => {},
        KeyCode::F20 => {},
        KeyCode::F21 => {},
        KeyCode::F22 => {},
        KeyCode::F23 => {},
        KeyCode::F24 => {},
        KeyCode::LShift => {},
        KeyCode::RShift => {},
        KeyCode::LCtrl => {},
        KeyCode::RCtrl => {},
        KeyCode::LAlt => {},
        KeyCode::RAlt => {},
        KeyCode::LMeta => {},
        KeyCode::RMeta => {},
        KeyCode::Escape => {},
        KeyCode::Enter => {},
        KeyCode::Backspace => {},
        KeyCode::Tab => {},
        KeyCode::Space => {},
        KeyCode::CapsLock => {},
        KeyCode::NumLock => {},
        KeyCode::ScrollLock => {},
        KeyCode::PrintScreen => {},
        KeyCode::Pause => {},
        KeyCode::Insert => {},
        KeyCode::Delete => {},
        KeyCode::Home => {},
        KeyCode::End => {},
        KeyCode::PageUp => {},
        KeyCode::PageDown => {},
        KeyCode::Left => {},
        KeyCode::Right => {},
        KeyCode::Up => {},
        KeyCode::Down => {},
        KeyCode::LeftBracket => {},
        KeyCode::RightBracket => {},
        KeyCode::Backslash => {},
        KeyCode::Semicolon => {},
        KeyCode::Quote => {},
        KeyCode::Comma => {},
        KeyCode::Period => {},
        KeyCode::Slash => {},
        KeyCode::Grave => {},
        KeyCode::Minus => {},
        KeyCode::Equal => {},
        KeyCode::Numpad0 => {},
        KeyCode::Numpad1 => {},
        KeyCode::Numpad2 => {},
        KeyCode::Numpad3 => {},
        KeyCode::Numpad4 => {},
        KeyCode::Numpad5 => {},
        KeyCode::Numpad6 => {},
        KeyCode::Numpad7 => {},
        KeyCode::Numpad8 => {},
        KeyCode::Numpad9 => {},
        KeyCode::NumpadDivide => {},
        KeyCode::NumpadMultiply => {},
        KeyCode::NumpadSubtract => {},
        KeyCode::NumpadAdd => {},
        KeyCode::NumpadEnter => {},
        KeyCode::NumpadDecimal => {},
        KeyCode::Mute => {},
        KeyCode::VolumeDown => {},
        KeyCode::VolumeUp => {},
        KeyCode::MediaPlayPause => {},
        KeyCode::MediaStop => {},
        KeyCode::MediaPrevious => {},
        KeyCode::MediaNext => {},
        KeyCode::Power => {},
        KeyCode::Sleep => {},
        KeyCode::Wake => {},
        KeyCode::BrowserBack => {},
        KeyCode::BrowserForward => {},
        KeyCode::BrowserRefresh => {},
        KeyCode::BrowserStop => {},
        KeyCode::BrowserSearch => {},
        KeyCode::BrowserFavorites => {},
        KeyCode::BrowserHome => {},
        KeyCode::AppMail => {},
        KeyCode::AppCalculator => {},
        KeyCode::AppMyComputer => {},
        KeyCode::Menu => {},
        KeyCode::Help => {},
        KeyCode::Select => {},
        KeyCode::Execute => {},
        KeyCode::Undo => {},
        KeyCode::Redo => {},
        KeyCode::Cut => {},
        KeyCode::Copy => {},
        KeyCode::Paste => {},
        KeyCode::Find => {},
        KeyCode::Zenkaku => {},
        KeyCode::Katakana => {},
        KeyCode::Hiragana => {},
        KeyCode::Henkan => {},
        KeyCode::Muhenkan => {},
        KeyCode::Yen => {},
        KeyCode::Ro => {},
        KeyCode::KatakanaHiragana => {},
        KeyCode::Hangeul => {},
        KeyCode::Hanja => {},
        KeyCode::Iso102nd => {},
    }
}

/// An evdev code that names a key is that key's code, so the two tables
/// are inverse to each other.
pub proof fn lemma_evdev_inverse(code: u16, k: KeyCode)
    requires
        key_of_evdev(code) == Some(k),
    ensures
        evdev_code(k) == code,
{
    lemma_evdev_roundtrip(k);
    match k {
        KeyCode::A => {},
        KeyCode::B => {},
        KeyCode::C => {},
        KeyCode::D => {},
        KeyCode::E => {},
        KeyCode::F => {},
        KeyCode::G => {},
        KeyCode::H => {},
        KeyCode::I => {},
        KeyCode::J => {},
        KeyCode::K => {},
        KeyCode::L => {},
        KeyCode::M => {},
        KeyCode::N => {},
        KeyCode::O => {},
        KeyCode::P => {},
        KeyCode::Q => {},
        KeyCode::R => {},
        KeyCode::S => {},
        KeyCode::T => {},
        KeyCode::U => {},
        KeyCode::V => {},
        KeyCode::W => {},
        KeyCode::X => {},
        KeyCode::Y => {},
        KeyCode::Z => {},
        KeyCode::Num0 => {},
        KeyCode::Num1 => {},
        KeyCode::Num2 => {},
        KeyCode::Num3 => {},
        KeyCode::Num4 => {},
        KeyCode::Num5 => {},
        KeyCode::Num6 => {},
        KeyCode::Num7 => {},
        KeyCode::Num8 => {},
        KeyCode::Num9 => {},
        KeyCode::F1 => {},
        KeyCode::F2 => {},
        KeyCode::F3 => {},
        KeyCode::F4 => {},
        KeyCode::F5 => {},
        KeyCode::F6 => {},
        KeyCode::F7 => {},
        KeyCode::F8 => {},
        KeyCode::F9 => {},
        KeyCode::F10 => {},
        KeyCode::F11 => {},
        KeyCode::F12 => {},
        KeyCode::F13 => {},
        KeyCode::F14 => {},
        KeyCode::F15 => {},
        KeyCode::F16 => {},
        KeyCode::F17 => {},
        KeyCode::F18 => {},
        KeyCode::F19 => {},
        KeyCode::F20 => {},
        KeyCode::F21 => {},
        KeyCode::F22 => {},
        KeyCode::F23 => {},
        KeyCode::F24 => {},
        KeyCode::LShift => {},
        KeyCode::RShift => {},
        KeyCode::LCtrl => {},
        KeyCode::RCtrl => {},
        KeyCode::LAlt => {},
        KeyCode::RAlt => {},
        KeyCode::LMeta => {},
        KeyCode::RMeta => {},
        KeyCode::Escape => {},
        KeyCode::Enter => {},
        KeyCode::Backspace => {},
        KeyCode::Tab => {},
        KeyCode::Space => {},
        KeyCode::CapsLock => {},
        KeyCode::NumLock => {},
        KeyCode::ScrollLock => {},
        KeyCode::PrintScreen => {},
        KeyCode::Pause => {},
        KeyCode::Insert => {},
        KeyCode::Delete => {},
        KeyCode::Home => {},
        KeyCode::End => {},
        KeyCode::PageUp => {},
        KeyCode::PageDown => {},
        KeyCode::Left => {},
        KeyCode::Right => {},
        KeyCode::Up => {},
        KeyCode::Down => {},
        KeyCode::LeftBracket => {},
        KeyCode::RightBracket => {},
        KeyCode::Backslash => {},
        KeyCode::Semicolon => {},
        KeyCode::Quote => {},
        KeyCode::Comma => {},
        KeyCode::Period => {},
        KeyCode::Slash => {},
        KeyCode::Grave => {},
        KeyCode::Minus => {},
        KeyCode::Equal => {},
        KeyCode::Numpad0 => {},
        KeyCode::Numpad1 => {},
        KeyCode::Numpad2 => {},
        KeyCode::Numpad3 => {},
        KeyCode::Numpad4 => {},
        KeyCode::Numpad5 => {},
        KeyCode::Numpad6 => {},
        KeyCode::Numpad7 => {},
        KeyCode::Numpad8 => {},
        KeyCode::Numpad9 => {},
        KeyCode::NumpadDivide => {},
        KeyCode::NumpadMultiply => {},
        KeyCode::NumpadSubtract => {},
        KeyCode::NumpadAdd => {},
        KeyCode::NumpadEnter => {},
        KeyCode::NumpadDecimal => {},
        KeyCode::Mute => {},
        KeyCode::VolumeDown => {},
        KeyCode::VolumeUp => {},
        KeyCode::MediaPlayPause => {},
        KeyCode::MediaStop => {},
        KeyCode::MediaPrevious => {},
        KeyCode::MediaNext => {},
        KeyCode::Power => {},
        KeyCode::Sleep => {},
        KeyCode::Wake => {},
        KeyCode::BrowserBack => {},
        KeyCode::BrowserForward => {},
        KeyCode::BrowserRefresh => {},
        KeyCode::BrowserStop => {},
        KeyCode::BrowserSearch => {},
        KeyCode::BrowserFavorites => {},
        KeyCode::BrowserHome => {},
        KeyCode::AppMail => {},
        KeyCode::AppCalculator => {},
        KeyCode::AppMyComputer => {},
        KeyCode::Menu => {},
        KeyCode::Help => {},
        KeyCode::Select => {},
        KeyCode::Execute => {},
        KeyCode::Undo => {},
        KeyCode::Redo => {},
        KeyCode::Cut => {},
        KeyCode::Copy => {},
        KeyCode::Paste => {},
        KeyCode::Find => {},
        KeyCode::Zenkaku => {},
        KeyCode::Katakana => {},
        KeyCode::Hiragana => {},
        KeyCode::Henkan => {},
        KeyCode::Muhenkan => {},
        KeyCode::Yen => {},
        KeyCode::Ro => {},
        KeyCode::KatakanaHiragana => {},
        KeyCode::Hangeul => {},
        KeyCode::Hanja => {},
        KeyCode::Iso102nd => {},
    }
}

/// Different keys have different evdev codes.
pub proof fn lemma_evdev_injective(k1: KeyCode, k2: KeyCode)
    requires
        evdev_code(k1) == evdev_code(k2),
    ensures
        k1 == k2,
{
    lemma_evdev_roundtrip(k1);
    lemma_evdev_roundtrip(k2);
}

/// Decoding an evdev code is inverting the key-to-code table: a code
/// decodes to the one key whose code it is, and to nothing when no key has
/// it.
pub proof fn law_evdev_decoding_inverts_encoding(code: u16)
    ensures
        key_of_evdev(code) == (if exists|k: KeyCode| evdev_code(k) == code {
            Some(choose|k: KeyCode| evdev_code(k) == code)
        } else {
            None
        }),
{
    if exists|k: KeyCode| evdev_code(k) == code {
        let k = choose|k: KeyCode| evdev_code(k) == code;
        lemma_evdev_roundtrip(k);
    } else {
        match key_of_evdev(code) {
            Some(k) => {
                lemma_evdev_inverse(code, k);
            },
            None => {},
        }
    }
}

/// Whether the keys of `keys` have the consecutive evdev codes `start`,
/// `start + 1`, and so on.
pub open spec fn numbered_from(keys: Seq<KeyCode>, start: int) -> bool
    decreases keys.len(),
{
    if keys.len() == 0 {
        true
    } else {
        evdev_code(keys[0]) == start && numbered_from(keys.drop_first(), start + 1)
    }
}

/// Every key carries the number the Linux kernel gives it
/// (`linux/input-event-codes.h`): the keys listed in the kernel's order,
/// run by run of consecutive numbers, starting at `KEY_ESC` = 1; `KEY_Q`
/// is 16, `KEY_A` 30, `KEY_Z` 44, `KEY_F1` 59, `KEY_HOME` 102, `KEY_F13`
/// 183, `KEY_SEARCH` 217 and `KEY_SELECT` 353.
#[verifier::spinoff_prover]
#[verifier::rlimit(100)]
pub proof fn law_evdev_codes_follow_kernel_numbering()
    ensures
        numbered_from(seq![KeyCode::Escape, KeyCode::Num1, KeyCode::Num2, KeyCode::Num3, KeyCode::Num4, KeyCode::Num5, KeyCode::Num6, KeyCode::Num7, KeyCode::Num8, KeyCode::Num9, KeyCode::Num0, KeyCode::Minus, KeyCode::Equal, KeyCode::Backspace, KeyCode::Tab], 1),
        numbered_from(seq![KeyCode::Q, KeyCode::W, KeyCode::E, KeyCode::R, KeyCode::T, KeyCode::Y, KeyCode::U, KeyCode::I, KeyCode::O, KeyCode::P, KeyCode::LeftBracket, KeyCode::RightBracket, KeyCode::Enter, KeyCode::LCtrl], 16),
        numbered_from(seq![KeyCode::A, KeyCode::S, KeyCode::D, KeyCode::F, KeyCode::G, KeyCode::H, KeyCode::J, KeyCode::K, KeyCode::L, KeyCode::Semicolon, KeyCode::Quote, KeyCode::Grave, KeyCode::LShift, KeyCode::Backslash], 30),
        numbered_from(seq![KeyCode::Z, KeyCode::X, KeyCode::C, KeyCode::V, KeyCode::B, KeyCode::N, KeyCode::M, KeyCode::Comma, KeyCode::Period, KeyCode::Slash, KeyCode::RShift, KeyCode::NumpadMultiply, KeyCode::LAlt, KeyCode::Space, KeyCode::CapsLock], 44),
        numbered_from(seq![KeyCode::F1, KeyCode::F2, KeyCode::F3, KeyCode::F4, KeyCode::F5, KeyCode::F6, KeyCode::F7, KeyCode::F8, KeyCode::F9, KeyCode::F10, KeyCode::NumLock, KeyCode::ScrollLock], 59),
        numbered_from(seq![KeyCode::Numpad7, KeyCode::Numpad8, KeyCode::Numpad9, KeyCode::NumpadSubtract, KeyCode::Numpad4, KeyCode::Numpad5, KeyCode::Numpad6, KeyCode::NumpadAdd, KeyCode::Numpad1, KeyCode::Numpad2, KeyCode::Numpad3, KeyCode::Numpad0, KeyCode::NumpadDecimal], 71),
        numbered_from(seq![KeyCode::Zenkaku, KeyCode::Iso102nd, KeyCode::F11, KeyCode::F12, KeyCode::Ro, KeyCode::Katakana, KeyCode::Hiragana, KeyCode::Henkan, KeyCode::KatakanaHiragana, KeyCode::Muhenkan], 85),
        numbered_from(seq![KeyCode::NumpadEnter, KeyCode::RCtrl, KeyCode::NumpadDivide, KeyCode::PrintScreen, KeyCode::RAlt], 96),
        numbered_from(seq![KeyCode::Home, KeyCode::Up, KeyCode::PageUp, KeyCode::Left, KeyCode::Right, KeyCode::End, KeyCode::Down, KeyCode::PageDown, KeyCode::Insert, KeyCode::Delete], 102),
        numbered_from(seq![KeyCode::Mute, KeyCode::VolumeDown, KeyCode::VolumeUp, KeyCode::Power], 113),
        numbered_from(seq![KeyCode::Pause], 119),
        numbered_from(seq![KeyCode::Hangeul, KeyCode::Hanja, KeyCode::Yen, KeyCode::LMeta, KeyCode::RMeta, KeyCode::Menu, KeyCode::BrowserStop], 122),
        numbered_from(seq![KeyCode::Undo], 131),
        numbered_from(seq![KeyCode::Copy, KeyCode::Execute, KeyCode::Paste, KeyCode::Find, KeyCode::Cut, KeyCode::Help], 133),
        numbered_from(seq![KeyCode::AppCalculator], 140),
        numbered_from(seq![KeyCode::Sleep, KeyCode::Wake], 142),
        numbered_from(seq![KeyCode::AppMail, KeyCode::BrowserFavorites, KeyCode::AppMyComputer, KeyCode::BrowserBack, KeyCode::BrowserForward], 155),
        numbered_from(seq![KeyCode::MediaNext, KeyCode::MediaPlayPause, KeyCode::MediaPrevious, KeyCode::MediaStop], 163),
        numbered_from(seq![KeyCode::BrowserHome, KeyCode::BrowserRefresh], 172),
        numbered_from(seq![KeyCode::Redo, KeyCode::F13, KeyCode::F14, KeyCode::F15, KeyCode::F16, KeyCode::F17, KeyCode::F18, KeyCode::F19, KeyCode::F20, KeyCode::F21, KeyCode::F22, KeyCode::F23, KeyCode::F24], 182),
        numbered_from(seq![KeyCode::BrowserSearch], 217),
        numbered_from(seq![KeyCode::Select], 353),
{
    assert(numbered_from(seq![KeyCode::Escape, KeyCode::Num1, KeyCode::Num2, KeyCode::Num3, KeyCode::Num4, KeyCode::Num5, KeyCode::Num6, KeyCode::Num7, KeyCode::Num8, KeyCode::Num9, KeyCode::Num0, KeyCode::Minus, KeyCode::Equal, KeyCode::Backspace, KeyCode::Tab], 1)) by {
        reveal_with_fuel(numbered_from, 16);
    }
    assert(numbered_from(seq![KeyCode::Q, KeyCode::W, KeyCode::E, KeyCode::R, KeyCode::T, KeyCode::Y, KeyCode::U, KeyCode::I, KeyCode::O, KeyCode::P, KeyCode::LeftBracket, KeyCode::RightBracket, KeyCode::Enter, KeyCode::LCtrl], 16)) by {
        reveal_with_fuel(numbered_from, 16);
    }
    assert(numbered_from(seq![KeyCode::A, KeyCode::S, KeyCode::D, KeyCode::F, KeyCode::G, KeyCode::H, KeyCode::J, KeyCode::K, KeyCode::L, KeyCode::Semicolon, KeyCode::Quote, KeyCode::Grave, KeyCode::LShift, KeyCode::Backslash], 30)) by {
        reveal_with_fuel(numbered_from, 16);
    }
    assert(numbered_from(seq![KeyCode::Z, KeyCode::X, KeyCode::C, KeyCode::V, KeyCode::B, KeyCode::N, KeyCode::M, KeyCode::Comma, KeyCode::Period, KeyCode::Slash, KeyCode::RShift, KeyCode::NumpadMultiply, KeyCode::LAlt, KeyCode::Space, KeyCode::CapsLock], 44)) by {
        reveal_with_fuel(numbered_from, 16);
    }
    assert(numbered_from(seq![KeyCode::F1, KeyCode::F2, KeyCode::F3, KeyCode::F4, KeyCode::F5, KeyCode::F6, KeyCode::F7, KeyCode::F8, KeyCode::F9, KeyCode::F10, KeyCode::NumLock, KeyCode::ScrollLock], 59)) by {
        reveal_with_fuel(numbered_from, 16);
    }
    assert(numbered_from(seq![KeyCode::Numpad7, KeyCode::Numpad8, KeyCode::Numpad9, KeyCode::NumpadSubtract, KeyCode::Numpad4, KeyCode::Numpad5, KeyCode::Numpad6, KeyCode::NumpadAdd, KeyCode::Numpad1, KeyCode::Numpad2, KeyCode::Numpad3, KeyCode::Numpad0, KeyCode::NumpadDecimal], 71)) by {
        reveal_with_fuel(numbered_from, 16);
    }
    assert(numbered_from(seq![KeyCode::Zenkaku, KeyCode::Iso102nd, KeyCode::F11, KeyCode::F12, KeyCode::Ro, KeyCode::Katakana, KeyCode::Hiragana, KeyCode::Henkan, KeyCode::KatakanaHiragana, KeyCode::Muhenkan], 85)) by {
        reveal_with_fuel(numbered_from, 16);
    }
    assert(numbered_from(seq![KeyCode::NumpadEnter, KeyCode::RCtrl, KeyCode::NumpadDivide, KeyCode::PrintScreen, KeyCode::RAlt], 96)) by {
        reveal_with_fuel(numbered_from, 16);
    }
    assert(numbered_from(seq![KeyCode::Home, KeyCode::Up, KeyCode::PageUp, KeyCode::Left, KeyCode::Right, KeyCode::End, KeyCode::Down, KeyCode::PageDown, KeyCode::Insert, KeyCode::Delete], 102)) by {
        reveal_with_fuel(numbered_from, 16);
    }
    assert(numbered_from(seq![KeyCode::Mute, KeyCode::VolumeDown, KeyCode::VolumeUp, KeyCode::Power], 113)) by {
        reveal_with_fuel(numbered_from, 16);
    }
    assert(numbered_from(seq![KeyCode::Pause], 119)) by {
        reveal_with_fuel(numbered_from, 16);
    }
    assert(numbered_from(seq![KeyCode::Hangeul, KeyCode::Hanja, KeyCode::Yen, KeyCode::LMeta, KeyCode::RMeta, KeyCode::Menu, KeyCode::BrowserStop], 122)) by {
        reveal_with_fuel(numbered_from, 16);
    }
    assert(numbered_from(seq![KeyCode::Undo], 131)) by {
        reveal_with_fuel(numbered_from, 16);
    }
    assert(numbered_from(seq![KeyCode::Copy, KeyCode::Execute, KeyCode::Paste, KeyCode::Find, KeyCode::Cut, KeyCode::Help], 133)) by {
        reveal_with_fuel(numbered_from, 16);
    }
    assert(numbered_from(seq![KeyCode::AppCalculator], 140)) by {
        reveal_with_fuel(numbered_from, 16);
    }
    assert(numbered_from(seq![KeyCode::Sleep, KeyCode::Wake], 142)) by {
        reveal_with_fuel(numbered_from, 16);
    }
    assert(numbered_from(seq![KeyCode::AppMail, KeyCode::BrowserFavorites, KeyCode::AppMyComputer, KeyCode::BrowserBack, KeyCode::BrowserForward], 155)) by {
        reveal_with_fuel(numbered_from, 16);
    }
    assert(numbered_from(seq![KeyCode::MediaNext, KeyCode::MediaPlayPause, KeyCode::MediaPrevious, KeyCode::MediaStop], 163)) by {
        reveal_with_fuel(numbered_from, 16);
    }
    assert(numbered_from(seq![KeyCode::BrowserHome, KeyCode::BrowserRefresh], 172)) by {
        reveal_with_fuel(numbered_from, 16);
    }
    assert(numbered_from(seq![KeyCode::Redo, KeyCode::F13, KeyCode::F14, KeyCode::F15, KeyCode::F16, KeyCode::F17, KeyCode::F18, KeyCode::F19, KeyCode::F20, KeyCode::F21, KeyCode::F22, KeyCode::F23, KeyCode::F24], 182)) by {
        reveal_with_fuel(numbered_from, 16);
    }
    assert(numbered_from(seq![KeyCode::BrowserSearch], 217)) by {
        reveal_with_fuel(numbered_from, 16);
    }
    assert(numbered_from(seq![KeyCode::Select], 353)) by {
        reveal_with_fuel(numbered_from, 16);
    }
}

} // verus!
