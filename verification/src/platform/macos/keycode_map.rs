//! Key code tables between the daemon's key model and macOS `CGKeyCode`
//! values (physical key positions on an ANSI keyboard).

use vstd::prelude::*;
use crate::keys::KeyCode;

verus! {

/// The macOS CGKeyCode of a key, for the keys macOS names.
pub open spec fn cgkeycode_of_key(k: KeyCode) -> Option<u16> {
    match k {
        KeyCode::A => Some(0),
        KeyCode::B => Some(11),
        KeyCode::C => Some(8),
        KeyCode::D => Some(2),
        KeyCode::E => Some(14),
        KeyCode::F => Some(3),
        KeyCode::G => Some(5),
        KeyCode::H => Some(4),
        KeyCode::I => Some(34),
        KeyCode::J => Some(38),
        KeyCode::K => Some(40),
        KeyCode::L => Some(37),
        KeyCode::M => Some(46),
        KeyCode::N => Some(45),
        KeyCode::O => Some(31),
        KeyCode::P => Some(35),
        KeyCode::Q => Some(12),
        KeyCode::R => Some(15),
        KeyCode::S => Some(1),
        KeyCode::T => Some(17),
        KeyCode::U => Some(32),
        KeyCode::V => Some(9),
        KeyCode::W => Some(13),
        KeyCode::X => Some(7),
        KeyCode::Y => Some(16),
        KeyCode::Z => Some(6),
        KeyCode::Num0 => Some(29),
        KeyCode::Num1 => Some(18),
        KeyCode::Num2 => Some(19),
        KeyCode::Num3 => Some(20),
        KeyCode::Num4 => Some(21),
        KeyCode::Num5 => Some(23),
        KeyCode::Num6 => Some(22),
        KeyCode::Num7 => Some(26),
        KeyCode::Num8 => Some(28),
        KeyCode::Num9 => Some(25),
        KeyCode::F1 => Some(122),
        KeyCode::F2 => Some(120),
        KeyCode::F3 => Some(99),
        KeyCode::F4 => Some(118),
        KeyCode::F5 => Some(96),
        KeyCode::F6 => Some(97),
        KeyCode::F7 => Some(98),
        KeyCode::F8 => Some(100),
        KeyCode::F9 => Some(101),
        KeyCode::F10 => Some(109),
        KeyCode::F11 => Some(103),
        KeyCode::F12 => Some(111),
        KeyCode::F13 => Some(105),
        KeyCode::F14 => Some(107),
        KeyCode::F15 => Some(113),
        KeyCode::F16 => Some(106),
        KeyCode::F17 => Some(64),
        KeyCode::F18 => Some(79),
        KeyCode::F19 => Some(80),
        KeyCode::F20 => Some(90),
        KeyCode::LShift => Some(56),
        KeyCode::RShift => Some(60),
        KeyCode::LCtrl => Some(59),
        KeyCode::RCtrl => Some(62),
        KeyCode::LAlt => Some(58),
        KeyCode::RAlt => Some(61),
        KeyCode::LMeta => Some(55),
        KeyCode::RMeta => Some(54),
        KeyCode::Escape => Some(53),
        KeyCode::Enter => Some(36),
        KeyCode::Backspace => Some(51),
        KeyCode::Tab => Some(48),
        KeyCode::Space => Some(49),
        KeyCode::CapsLock => Some(57),
        KeyCode::Insert => Some(114),
        KeyCode::Delete => Some(117),
        KeyCode::Home => Some(115),
        KeyCode::End => Some(119),
        KeyCode::PageUp => Some(116),
        KeyCode::PageDown => Some(121),
        KeyCode::Left => Some(123),
        KeyCode::Right => Some(124),
        KeyCode::Up => Some(126),
        KeyCode::Down => Some(125),
        KeyCode::LeftBracket => Some(33),
        KeyCode::RightBracket => Some(30),
        KeyCode::Backslash => Some(42),
        KeyCode::Semicolon => Some(41),
        KeyCode::Quote => Some(39),
        KeyCode::Comma => Some(43),
        KeyCode::Period => Some(47),
        KeyCode::Slash => Some(44),
        KeyCode::Grave => Some(50),
        KeyCode::Minus => Some(27),
        KeyCode::Equal => Some(24),
        KeyCode::Numpad0 => Some(82),
        KeyCode::Numpad1 => Some(83),
        KeyCode::Numpad2 => Some(84),
        KeyCode::Numpad3 => Some(85),
        KeyCode::Numpad4 => Some(86),
        KeyCode::Numpad5 => Some(87),
        KeyCode::Numpad6 => Some(88),
        KeyCode::Numpad7 => Some(89),
        KeyCode::Numpad8 => Some(91),
        KeyCode::Numpad9 => Some(92),
        KeyCode::NumpadDivide => Some(75),
        KeyCode::NumpadMultiply => Some(67),
        KeyCode::NumpadSubtract => Some(78),
        KeyCode::NumpadAdd => Some(69),
        KeyCode::NumpadEnter => Some(76),
        KeyCode::NumpadDecimal => Some(65),
        KeyCode::NumLock => Some(71),
        KeyCode::Mute => Some(74),
        KeyCode::VolumeDown => Some(73),
        KeyCode::VolumeUp => Some(72),
        _ => None,
    }
}

/// The key a macOS CGKeyCode stands for, if any.
pub open spec fn key_of_cgkeycode(code: u16) -> Option<KeyCode> {
    match code {
        0 => Some(KeyCode::A),
        11 => Some(KeyCode::B),
        8 => Some(KeyCode::C),
        2 => Some(KeyCode::D),
        14 => Some(KeyCode::E),
        3 => Some(KeyCode::F),
        5 => Some(KeyCode::G),
        4 => Some(KeyCode::H),
        34 => Some(KeyCode::I),
        38 => Some(KeyCode::J),
        40 => Some(KeyCode::K),
        37 => Some(KeyCode::L),
        46 => Some(KeyCode::M),
        45 => Some(KeyCode::N),
        31 => Some(KeyCode::O),
        35 => Some(KeyCode::P),
        12 => Some(KeyCode::Q),
        15 => Some(KeyCode::R),
        1 => Some(KeyCode::S),
        17 => Some(KeyCode::T),
        32 => Some(KeyCode::U),
        9 => Some(KeyCode::V),
        13 => Some(KeyCode::W),
        7 => Some(KeyCode::X),
        16 => Some(KeyCode::Y),
        6 => Some(KeyCode::Z),
        29 => Some(KeyCode::Num0),
        18 => Some(KeyCode::Num1),
        19 => Some(KeyCode::Num2),
        20 => Some(KeyCode::Num3),
        21 => Some(KeyCode::Num4),
        23 => Some(KeyCode::Num5),
        22 => Some(KeyCode::Num6),
        26 => Some(KeyCode::Num7),
        28 => Some(KeyCode::Num8),
        25 => Some(KeyCode::Num9),
        122 => Some(KeyCode::F1),
        120 => Some(KeyCode::F2),
        99 => Some(KeyCode::F3),
        118 => Some(KeyCode::F4),
        96 => Some(KeyCode::F5),
        97 => Some(KeyCode::F6),
        98 => Some(KeyCode::F7),
        100 => Some(KeyCode::F8),
        101 => Some(KeyCode::F9),
        109 => Some(KeyCode::F10),
        103 => Some(KeyCode::F11),
        111 => Some(KeyCode::F12),
        105 => Some(KeyCode::F13),
        107 => Some(KeyCode::F14),
        113 => Some(KeyCode::F15),
        106 => Some(KeyCode::F16),
        64 => Some(KeyCode::F17),
        79 => Some(KeyCode::F18),
        80 => Some(KeyCode::F19),
        90 => Some(KeyCode::F20),
        56 => Some(KeyCode::LShift),
        60 => Some(KeyCode::RShift),
        59 => Some(KeyCode::LCtrl),
        62 => Some(KeyCode::RCtrl),
        58 => Some(KeyCode::LAlt),
        61 => Some(KeyCode::RAlt),
        55 => Some(KeyCode::LMeta),
        54 => Some(KeyCode::RMeta),
        53 => Some(KeyCode::Escape),
        36 => Some(KeyCode::Enter),
        51 => Some(KeyCode::Backspace),
        48 => Some(KeyCode::Tab),
        49 => Some(KeyCode::Space),
        57 => Some(KeyCode::CapsLock),
        114 => Some(KeyCode::Insert),
        117 => Some(KeyCode::Delete),
        115 => Some(KeyCode::Home),
        119 => Some(KeyCode::End),
        116 => Some(KeyCode::PageUp),
        121 => Some(KeyCode::PageDown),
        123 => Some(KeyCode::Left),
        124 => Some(KeyCode::Right),
        126 => Some(KeyCode::Up),
        125 => Some(KeyCode::Down),
        33 => Some(KeyCode::LeftBracket),
        30 => Some(KeyCode::RightBracket),
        42 => Some(KeyCode::Backslash),
        41 => Some(KeyCode::Semicolon),
        39 => Some(KeyCode::Quote),
        43 => Some(KeyCode::Comma),
        47 => Some(KeyCode::Period),
        44 => Some(KeyCode::Slash),
        50 => Some(KeyCode::Grave),
        27 => Some(KeyCode::Minus),
        24 => Some(KeyCode::Equal),
        82 => Some(KeyCode::Numpad0),
        83 => Some(KeyCode::Numpad1),
        84 => Some(KeyCode::Numpad2),
        85 => Some(KeyCode::Numpad3),
        86 => Some(KeyCode::Numpad4),
        87 => Some(KeyCode::Numpad5),
        88 => Some(KeyCode::Numpad6),
        89 => Some(KeyCode::Numpad7),
        91 => Some(KeyCode::Numpad8),
        92 => Some(KeyCode::Numpad9),
        75 => Some(KeyCode::NumpadDivide),
        67 => Some(KeyCode::NumpadMultiply),
        78 => Some(KeyCode::NumpadSubtract),
        69 => Some(KeyCode::NumpadAdd),
        76 => Some(KeyCode::NumpadEnter),
        65 => Some(KeyCode::NumpadDecimal),
        71 => Some(KeyCode::NumLock),
        74 => Some(KeyCode::Mute),
        73 => Some(KeyCode::VolumeDown),
        72 => Some(KeyCode::VolumeUp),
        _ => None,
    }
}

/// Converts a macOS CGKeyCode to a key.
pub fn cgkeycode_to_keyrx(cgcode: u16) -> (r: Option<KeyCode>)
    ensures
        r == key_of_cgkeycode(cgcode),
{
    match cgcode {
        0 => Some(KeyCode::A),
        11 => Some(KeyCode::B),
        8 => Some(KeyCode::C),
        2 => Some(KeyCode::D),
        14 => Some(KeyCode::E),
        3 => Some(KeyCode::F),
        5 => Some(KeyCode::G),
        4 => Some(KeyCode::H),
        34 => Some(KeyCode::I),
        38 => Some(KeyCode::J),
        40 => Some(KeyCode::K),
        37 => Some(KeyCode::L),
        46 => Some(KeyCode::M),
        45 => Some(KeyCode::N),
        31 => Some(KeyCode::O),
        35 => Some(KeyCode::P),
        12 => Some(KeyCode::Q),
        15 => Some(KeyCode::R),
        1 => Some(KeyCode::S),
        17 => Some(KeyCode::T),
        32 => Some(KeyCode::U),
        9 => Some(KeyCode::V),
        13 => Some(KeyCode::W),
        7 => Some(KeyCode::X),
        16 => Some(KeyCode::Y),
        6 => Some(KeyCode::Z),
        29 => Some(KeyCode::Num0),
        18 => Some(KeyCode::Num1),
        19 => Some(KeyCode::Num2),
        20 => Some(KeyCode::Num3),
        21 => Some(KeyCode::Num4),
        23 => Some(KeyCode::Num5),
        22 => Some(KeyCode::Num6),
        26 => Some(KeyCode::Num7),
        28 => Some(KeyCode::Num8),
        25 => Some(KeyCode::Num9),
        122 => Some(KeyCode::F1),
        120 => Some(KeyCode::F2),
        99 => Some(KeyCode::F3),
        118 => Some(KeyCode::F4),
        96 => Some(KeyCode::F5),
        97 => Some(KeyCode::F6),
        98 => Some(KeyCode::F7),
        100 => Some(KeyCode::F8),
        101 => Some(KeyCode::F9),
        109 => Some(KeyCode::F10),
        103 => Some(KeyCode::F11),
        111 => Some(KeyCode::F12),
        105 => Some(KeyCode::F13),
        107 => Some(KeyCode::F14),
        113 => Some(KeyCode::F15),
        106 => Some(KeyCode::F16),
        64 => Some(KeyCode::F17),
        79 => Some(KeyCode::F18),
        80 => Some(KeyCode::F19),
        90 => Some(KeyCode::F20),
        56 => Some(KeyCode::LShift),
        60 => Some(KeyCode::RShift),
        59 => Some(KeyCode::LCtrl),
        62 => Some(KeyCode::RCtrl),
        58 => Some(KeyCode::LAlt),
        61 => Some(KeyCode::RAlt),
        55 => Some(KeyCode::LMeta),
        54 => Some(KeyCode::RMeta),
        53 => Some(KeyCode::Escape),
        36 => Some(KeyCode::Enter),
        51 => Some(KeyCode::Backspace),
        48 => Some(KeyCode::Tab),
        49 => Some(KeyCode::Space),
        57 => Some(KeyCode::CapsLock),
        114 => Some(KeyCode::Insert),
        117 => Some(KeyCode::Delete),
        115 => Some(KeyCode::Home),
        119 => Some(KeyCode::End),
        116 => Some(KeyCode::PageUp),
        121 => Some(KeyCode::PageDown),
        123 => Some(KeyCode::Left),
        124 => Some(KeyCode::Right),
        126 => Some(KeyCode::Up),
        125 => Some(KeyCode::Down),
        33 => Some(KeyCode::LeftBracket),
        30 => Some(KeyCode::RightBracket),
        42 => Some(KeyCode::Backslash),
        41 => Some(KeyCode::Semicolon),
        39 => Some(KeyCode::Quote),
        43 => Some(KeyCode::Comma),
        47 => Some(KeyCode::Period),
        44 => Some(KeyCode::Slash),
        50 => Some(KeyCode::Grave),
        27 => Some(KeyCode::Minus),
        24 => Some(KeyCode::Equal),
        82 => Some(KeyCode::Numpad0),
        83 => Some(KeyCode::Numpad1),
        84 => Some(KeyCode::Numpad2),
        85 => Some(KeyCode::Numpad3),
        86 => Some(KeyCode::Numpad4),
        87 => Some(KeyCode::Numpad5),
        88 => Some(KeyCode::Numpad6),
        89 => Some(KeyCode::Numpad7),
        91 => Some(KeyCode::Numpad8),
        92 => Some(KeyCode::Numpad9),
        75 => Some(KeyCode::NumpadDivide),
        67 => Some(KeyCode::NumpadMultiply),
        78 => Some(KeyCode::NumpadSubtract),
        69 => Some(KeyCode::NumpadAdd),
        76 => Some(KeyCode::NumpadEnter),
        65 => Some(KeyCode::NumpadDecimal),
        71 => Some(KeyCode::NumLock),
        74 => Some(KeyCode::Mute),
        73 => Some(KeyCode::VolumeDown),
        72 => Some(KeyCode::VolumeUp),
        _ => None,
    }
}

/// Converts a key to its macOS CGKeyCode.
pub fn keyrx_to_cgkeycode(keycode: KeyCode) -> (r: Option<u16>)
    ensures
        r == cgkeycode_of_key(keycode),
{
    match keycode {
        KeyCode::A => Some(0),
        KeyCode::B => Some(11),
        KeyCode::C => Some(8),
        KeyCode::D => Some(2),
        KeyCode::E => Some(14),
        KeyCode::F => Some(3),
        KeyCode::G => Some(5),
        KeyCode::H => Some(4),
        KeyCode::I => Some(34),
        KeyCode::J => Some(38),
        KeyCode::K => Some(40),
        KeyCode::L => Some(37),
        KeyCode::M => Some(46),
        KeyCode::N => Some(45),
        KeyCode::O => Some(31),
        KeyCode::P => Some(35),
        KeyCode::Q => Some(12),
        KeyCode::R => Some(15),
        KeyCode::S => Some(1),
        KeyCode::T => Some(17),
        KeyCode::U => Some(32),
        KeyCode::V => Some(9),
        KeyCode::W => Some(13),
        KeyCode::X => Some(7),
        KeyCode::Y => Some(16),
        KeyCode::Z => Some(6),
        KeyCode::Num0 => Some(29),
        KeyCode::Num1 => Some(18),
        KeyCode::Num2 => Some(19),
        KeyCode::Num3 => Some(20),
        KeyCode::Num4 => Some(21),
        KeyCode::Num5 => Some(23),
        KeyCode::Num6 => Some(22),
        KeyCode::Num7 => Some(26),
        KeyCode::Num8 => Some(28),
        KeyCode::Num9 => Some(25),
        KeyCode::F1 => Some(122),
        KeyCode::F2 => Some(120),
        KeyCode::F3 => Some(99),
        KeyCode::F4 => Some(118),
        KeyCode::F5 => Some(96),
        KeyCode::F6 => Some(97),
        KeyCode::F7 => Some(98),
        KeyCode::F8 => Some(100),
        KeyCode::F9 => Some(101),
        KeyCode::F10 => Some(109),
        KeyCode::F11 => Some(103),
        KeyCode::F12 => Some(111),
        KeyCode::F13 => Some(105),
        KeyCode::F14 => Some(107),
        KeyCode::F15 => Some(113),
        KeyCode::F16 => Some(106),
        KeyCode::F17 => Some(64),
        KeyCode::F18 => Some(79),
        KeyCode::F19 => Some(80),
        KeyCode::F20 => Some(90),
        KeyCode::LShift => Some(56),
        KeyCode::RShift => Some(60),
        KeyCode::LCtrl => Some(59),
        KeyCode::RCtrl => Some(62),
        KeyCode::LAlt => Some(58),
        KeyCode::RAlt => Some(61),
        KeyCode::LMeta => Some(55),
        KeyCode::RMeta => Some(54),
        KeyCode::Escape => Some(53),
        KeyCode::Enter => Some(36),
        KeyCode::Backspace => Some(51),
        KeyCode::Tab => Some(48),
        KeyCode::Space => Some(49),
        KeyCode::CapsLock => Some(57),
        KeyCode::Insert => Some(114),
        KeyCode::Delete => Some(117),
        KeyCode::Home => Some(115),
        KeyCode::End => Some(119),
        KeyCode::PageUp => Some(116),
        KeyCode::PageDown => Some(121),
        KeyCode::Left => Some(123),
        KeyCode::Right => Some(124),
        KeyCode::Up => Some(126),
        KeyCode::Down => Some(125),
        KeyCode::LeftBracket => Some(33),
        KeyCode::RightBracket => Some(30),
        KeyCode::Backslash => Some(42),
        KeyCode::Semicolon => Some(41),
        KeyCode::Quote => Some(39),
        KeyCode::Comma => Some(43),
        KeyCode::Period => Some(47),
        KeyCode::Slash => Some(44),
        KeyCode::Grave => Some(50),
        KeyCode::Minus => Some(27),
        KeyCode::Equal => Some(24),
        KeyCode::Numpad0 => Some(82),
        KeyCode::Numpad1 => Some(83),
        KeyCode::Numpad2 => Some(84),
        KeyCode::Numpad3 => Some(85),
        KeyCode::Numpad4 => Some(86),
        KeyCode::Numpad5 => Some(87),
        KeyCode::Numpad6 => Some(88),
        KeyCode::Numpad7 => Some(89),
        KeyCode::Numpad8 => Some(91),
        KeyCode::Numpad9 => Some(92),
        KeyCode::NumpadDivide => Some(75),
        KeyCode::NumpadMultiply => Some(67),
        KeyCode::NumpadSubtract => Some(78),
        KeyCode::NumpadAdd => Some(69),
        KeyCode::NumpadEnter => Some(76),
        KeyCode::NumpadDecimal => Some(65),
        KeyCode::NumLock => Some(71),
        KeyCode::Mute => Some(74),
        KeyCode::VolumeDown => Some(73),
        KeyCode::VolumeUp => Some(72),
        _ => None,
    }
}

/// Converting a mapped key to its code and back gives the same key.
pub proof fn lemma_cgkeycode_roundtrip(k: KeyCode, code: u16)
    requires
        cgkeycode_of_key(k) == Some(code),
    ensures
        key_of_cgkeycode(code) == Some(k),
{
    match k {
        KeyCode::A => {},
        KeyCode::B => {},
        KeyCode::C => {},
        KeyCode::D => {},
        KeyCode::E => {},
        KeyCode::F => {},
        KeyCode::G => {},
        KeyCode::H => {},
        KeyCode::I => {},
        KeyCode::J => {},
        KeyCode::K => {},
        KeyCode::L => {},
        KeyCode::M => {},
        KeyCode::N => {},
        KeyCode::O => {},
        KeyCode::P => {},
        KeyCode::Q => {},
        KeyCode::R => {},
        KeyCode::S => {},
        KeyCode::T => {},
        KeyCode::U => {},
        KeyCode::V => {},
        KeyCode::W => {},
        KeyCode::X => {},
        KeyCode::Y => {},
        KeyCode::Z => {},
        KeyCode::Num0 => {},
        KeyCode::Num1 => {},
        KeyCode::Num2 => {},
        KeyCode::Num3 => {},
        KeyCode::Num4 => {},
        KeyCode::Num5 => {},
        KeyCode::Num6 => {},
        KeyCode::Num7 => {},
        KeyCode::Num8 => {},
        KeyCode::Num9 => {},
        KeyCode::F1 => {},
        KeyCode::F2 => {},
        KeyCode::F3 => {},
        KeyCode::F4 => {},
        KeyCode::F5 => {},
        KeyCode::F6 => {},
        KeyCode::F7 => {},
        KeyCode::F8 => {},
        KeyCode::F9 => {},
        KeyCode::F10 => {},
        KeyCode::F11 => {},
        KeyCode::F12 => {},
        KeyCode::F13 => {},
        KeyCode::F14 => {},
        KeyCode::F15 => {},
        KeyCode::F16 => {},
        KeyCode::F17 => {},
        KeyCode::F18 => {},
        KeyCode::F19 => {},
        KeyCode::F20 => {},
        KeyCode::F21 => {},
        KeyCode::F22 => {},
        KeyCode::F23 => {},
        KeyCode::F24 => {},
        KeyCode::LShift => {},
        KeyCode::RShift => {},
        KeyCode::LCtrl => {},
        KeyCode::RCtrl => {},
        KeyCode::LAlt => {},
        KeyCode::RAlt => {},
        KeyCode::LMeta => {},
        KeyCode::RMeta => {},
        KeyCode::Escape => {},
        KeyCode::Enter => {},
        KeyCode::Backspace => {},
        KeyCode::Tab => {},
        KeyCode::Space => {},
        KeyCode::CapsLock => {},
        KeyCode::NumLock => {},
        KeyCode::ScrollLock => {},
        KeyCode::PrintScreen => {},
        KeyCode::Pause => {},
        KeyCode::Insert => {},
        KeyCode::Delete => {},
        KeyCode::Home => {},
        KeyCode::End => {},
        KeyCode::PageUp => {},
        KeyCode::PageDown => {},
        KeyCode::Left => {},
        KeyCode::Right => {},
        KeyCode::Up => {},
        KeyCode::Down => {},
        KeyCode::LeftBracket => {},
        KeyCode::RightBracket => {},
        KeyCode::Backslash => {},
        KeyCode::Semicolon => {},
        KeyCode::Quote => {},
        KeyCode::Comma => {},
        KeyCode::Period => {},
        KeyCode::Slash => {},
        KeyCode::Grave => {},
        KeyCode::Minus => {},
        KeyCode::Equal => {},
        KeyCode::Numpad0 => {},
        KeyCode::Numpad1 => {},
        KeyCode::Numpad2 => {},
        KeyCode::Numpad3 => {},
        KeyCode::Numpad4 => {},
        KeyCode::Numpad5 => {},
        KeyCode::Numpad6 => {},
        KeyCode::Numpad7 => {},
        KeyCode::Numpad8 => {},
        KeyCode::Numpad9 => {},
        KeyCode::NumpadDivide => {},
        KeyCode::NumpadMultiply => {},
        KeyCode::NumpadSubtract => {},
        KeyCode::NumpadAdd => {},
        KeyCode::NumpadEnter => {},
        KeyCode::NumpadDecimal => {},
        KeyCode::Mute => {},
        KeyCode::VolumeDown => {},
        KeyCode::VolumeUp => {},
        KeyCode::MediaPlayPause => {},
        KeyCode::MediaStop => {},
        KeyCode::MediaPrevious => {},
        KeyCode::MediaNext => {},
        KeyCode::Power => {},
        KeyCode::Sleep => {},
        KeyCode::Wake => {},
        KeyCode::BrowserBack => {},
        KeyCode::BrowserForward => {},
        KeyCode::BrowserRefresh => {},
        KeyCode::BrowserStop => {},
        KeyCode::BrowserSearch => {},
        KeyCode::BrowserFavorites => {},
        KeyCode::BrowserHome => {},
        KeyCode::AppMail => {},
        KeyCode::AppCalculator => {},
        KeyCode::AppMyComputer => {},
        KeyCode::Menu => {},
        KeyCode::Help => {},
        KeyCode::Select => {},
        KeyCode::Execute => {},
        KeyCode::Undo => {},
        KeyCode::Redo => {},
        KeyCode::Cut => {},
        KeyCode::Copy => {},
        KeyCode::Paste => {},
        KeyCode::Find => {},
        KeyCode::Zenkaku => {},
        KeyCode::Katakana => {},
        KeyCode::Hiragana => {},
        KeyCode::Henkan => {},
        KeyCode::Muhenkan => {},
        KeyCode::Yen => {},
        KeyCode::Ro => {},
        KeyCode::KatakanaHiragana => {},
        KeyCode::Hangeul => {},
        KeyCode::Hanja => {},
        KeyCode::Iso102nd => {},
    }
}

/// A code that names a key is that key's code, so the two tables are
/// inverse to each other.
pub proof fn lemma_cgkeycode_inverse(code: u16, k: KeyCode)
    requires
        key_of_cgkeycode(code) == Some(k),
    ensures
        cgkeycode_of_key(k) == Some(code),
{
    match k {
        KeyCode::A => {},
        KeyCode::B => {},
        KeyCode::C => {},
        KeyCode::D => {},
        KeyCode::E => {},
        KeyCode::F => {},
        KeyCode::G => {},
        KeyCode::H => {},
        KeyCode::I => {},
        KeyCode::J => {},
        KeyCode::K => {},
        KeyCode::L => {},
        KeyCode::M => {},
        KeyCode::N => {},
        KeyCode::O => {},
        KeyCode::P => {},
        KeyCode::Q => {},
        KeyCode::R => {},
        KeyCode::S => {},
        KeyCode::T => {},
        KeyCode::U => {},
        KeyCode::V => {},
        KeyCode::W => {},
        KeyCode::X => {},
        KeyCode::Y => {},
        KeyCode::Z => {},
        KeyCode::Num0 => {},
        KeyCode::Num1 => {},
        KeyCode::Num2 => {},
        KeyCode::Num3 => {},
        KeyCode::Num4 => {},
        KeyCode::Num5 => {},
        KeyCode::Num6 => {},
        KeyCode::Num7 => {},
        KeyCode::Num8 => {},
        KeyCode::Num9 => {},
        KeyCode::F1 => {},
        KeyCode::F2 => {},
        KeyCode::F3 => {},
        KeyCode::F4 => {},
        KeyCode::F5 => {},
        KeyCode::F6 => {},
        KeyCode::F7 => {},
        KeyCode::F8 => {},
        KeyCode::F9 => {},
        KeyCode::F10 => {},
        KeyCode::F11 => {},
        KeyCode::F12 => {},
        KeyCode::F13 => {},
        KeyCode::F14 => {},
        KeyCode::F15 => {},
        KeyCode::F16 => {},
        KeyCode::F17 => {},
        KeyCode::F18 => {},
        KeyCode::F19 => {},
        KeyCode::F20 => {},
        KeyCode::F21 => {},
        KeyCode::F22 => {},
        KeyCode::F23 => {},
        KeyCode::F24 => {},
        KeyCode::LShift => {},
        KeyCode::RShift => {},
        KeyCode::LCtrl => {},
        KeyCode::RCtrl => {},
        KeyCode::LAlt => {},
        KeyCode::RAlt => {},
        KeyCode::LMeta => {},
        KeyCode::RMeta => {},
        KeyCode::Escape => {},
        KeyCode::Enter => {},
        KeyCode::Backspace => {},
        KeyCode::Tab => {},
        KeyCode::Space => {},
        KeyCode::CapsLock => {},
        KeyCode::NumLock => {},
        KeyCode::ScrollLock => {},
        KeyCode::PrintScreen => {},
        KeyCode::Pause => {},
        KeyCode::Insert => {},
        KeyCode::Delete => {},
        KeyCode::Home => {},
        KeyCode::End => {},
        KeyCode::PageUp => {},
        KeyCode::PageDown => {},
        KeyCode::Left => {},
        KeyCode::Right => {},
        KeyCode::Up => {},
        KeyCode::Down => {},
        KeyCode::LeftBracket => {},
        KeyCode::RightBracket => {},
        KeyCode::Backslash => {},
        KeyCode::Semicolon => {},
        KeyCode::Quote => {},
        KeyCode::Comma => {},
        KeyCode::Period => {},
        KeyCode::Slash => {},
        KeyCode::Grave => {},
        KeyCode::Minus => {},
        KeyCode::Equal => {},
        KeyCode::Numpad0 => {},
        KeyCode::Numpad1 => {},
        KeyCode::Numpad2 => {},
        KeyCode::Numpad3 => {},
        KeyCode::Numpad4 => {},
        KeyCode::Numpad5 => {},
        KeyCode::Numpad6 => {},
        KeyCode::Numpad7 => {},
        KeyCode::Numpad8 => {},
        KeyCode::Numpad9 => {},
        KeyCode::NumpadDivide => {},
        KeyCode::NumpadMultiply => {},
        KeyCode::NumpadSubtract => {},
        KeyCode::NumpadAdd => {},
        KeyCode::NumpadEnter => {},
        KeyCode::NumpadDecimal => {},
        KeyCode::Mute => {},
        KeyCode::VolumeDown => {},
        KeyCode::VolumeUp => {},
        KeyCode::MediaPlayPause => {},
        KeyCode::MediaStop => {},
        KeyCode::MediaPrevious => {},
        KeyCode::MediaNext => {},
        KeyCode::Power => {},
        KeyCode::Sleep => {},
        KeyCode::Wake => {},
        KeyCode::BrowserBack => {},
        KeyCode::BrowserForward => {},
        KeyCode::BrowserRefresh => {},
        KeyCode::BrowserStop => {},
        KeyCode::BrowserSearch => {},
        KeyCode::BrowserFavorites => {},
        KeyCode::BrowserHome => {},
        KeyCode::AppMail => {},
        KeyCode::AppCalculator => {},
        KeyCode::AppMyComputer => {},
        KeyCode::Menu => {},
        KeyCode::Help => {},
        KeyCode::Select => {},
        KeyCode::Execute => {},
        KeyCode::Undo => {},
        KeyCode::Redo => {},
        KeyCode::Cut => {},
        KeyCode::Copy => {},
        KeyCode::Paste => {},
        KeyCode::Find => {},
        KeyCode::Zenkaku => {},
        KeyCode::Katakana => {},
        KeyCode::Hiragana => {},
        KeyCode::Henkan => {},
        KeyCode::Muhenkan => {},
        KeyCode::Yen => {},
        KeyCode::Ro => {},
        KeyCode::KatakanaHiragana => {},
        KeyCode::Hangeul => {},
        KeyCode::Hanja => {},
        KeyCode::Iso102nd => {},
    }
}

/// Different keys never share a code.
pub proof fn lemma_cgkeycode_injective(k1: KeyCode, k2: KeyCode, code: u16)
    requires
        cgkeycode_of_key(k1) == Some(code),
        cgkeycode_of_key(k2) == Some(code),
    ensures
        k1 == k2,
{
    lemma_cgkeycode_roundtrip(k1, code);
    lemma_cgkeycode_roundtrip(k2, code);
}

/// Decoding a CGKeyCode is inverting the key-to-code table: a code decodes
/// to the one key whose code it is, and to nothing when no key has it.
pub proof fn law_cgkeycode_decoding_inverts_encoding(code: u16)
    ensures
        key_of_cgkeycode(code) == (if exists|k: KeyCode| cgkeycode_of_key(k) == Some(code) {
            Some(choose|k: KeyCode| cgkeycode_of_key(k) == Some(code))
        } else {
            None
        }),
{
    if exists|k: KeyCode| cgkeycode_of_key(k) == Some(code) {
        let k = choose|k: KeyCode| cgkeycode_of_key(k) == Some(code);
        lemma_cgkeycode_roundtrip(k, code);
    } else {
        match key_of_cgkeycode(code) {
            Some(k) => {
                lemma_cgkeycode_inverse(code, k);
            },
            None => {},
        }
    }
}

/// Whether the keys of `keys` have the consecutive CGKeyCodes `start`,
/// `start + 1`, and so on.
pub open spec fn cg_numbered_from(keys: Seq<KeyCode>, start: int) -> bool
    decreases keys.len(),
{
    if keys.len() == 0 {
        true
    } else {
        (cgkeycode_of_key(keys[0]) matches Some(c) && c == start) && cg_numbered_from(keys.drop_first(), start + 1)
    }
}

/// Every mapped key carries its macOS virtual key code (`kVK_*` of
/// `Events.h`): the keys listed in the order of their codes, run by run of
/// consecutive codes; `kVK_ANSI_A` is 0, `kVK_ANSI_Q` 12, `kVK_Return` 36,
/// `kVK_Escape` 53, `kVK_F1` 122 and `kVK_UpArrow` 126.
#[verifier::spinoff_prover]
#[verifier::rlimit(100)]
pub proof fn law_cgkeycodes_follow_macos_numbering()
    ensures
        cg_numbered_from(seq![KeyCode::A, KeyCode::S, KeyCode::D, KeyCode::F, KeyCode::H, KeyCode::G, KeyCode::Z, KeyCode::X, KeyCode::C, KeyCode::V], 0),
        cg_numbered_from(seq![KeyCode::B, KeyCode::Q, KeyCode::W, KeyCode::E, KeyCode::R, KeyCode::Y, KeyCode::T, KeyCode::Num1, KeyCode::Num2, KeyCode::Num3, KeyCode::Num4, KeyCode::Num6, KeyCode::Num5, KeyCode::Equal, KeyCode::Num9, KeyCode::Num7, KeyCode::Minus, KeyCode::Num8, KeyCode::Num0], 11),
        cg_numbered_from(seq![KeyCode::RightBracket, KeyCode::O, KeyCode::U, KeyCode::LeftBracket, KeyCode::I, KeyCode::P, KeyCode::Enter, KeyCode::L, KeyCode::J, KeyCode::Quote, KeyCode::K, KeyCode::Semicolon, KeyCode::Backslash, KeyCode::Comma, KeyCode::Slash, KeyCode::N, KeyCode::M, KeyCode::Period, KeyCode::Tab, KeyCode::Space, KeyCode::Grave, KeyCode::Backspace], 30),
        cg_numbered_from(seq![KeyCode::Escape, KeyCode::RMeta, KeyCode::LMeta, KeyCode::LShift, KeyCode::CapsLock, KeyCode::LAlt, KeyCode::LCtrl, KeyCode::RShift, KeyCode::RAlt, KeyCode::RCtrl], 53),
        cg_numbered_from(seq![KeyCode::F17, KeyCode::NumpadDecimal], 64),
        cg_numbered_from(seq![KeyCode::NumpadMultiply], 67),
        cg_numbered_from(seq![KeyCode::NumpadAdd], 69),
        cg_numbered_from(seq![KeyCode::NumLock, KeyCode::VolumeUp, KeyCode::VolumeDown, KeyCode::Mute, KeyCode::NumpadDivide, KeyCode::NumpadEnter], 71),
        cg_numbered_from(seq![KeyCode::NumpadSubtract, KeyCode::F18, KeyCode::F19], 78),
        cg_numbered_from(seq![KeyCode::Numpad0, KeyCode::Numpad1, KeyCode::Numpad2, KeyCode::Numpad3, KeyCode::Numpad4, KeyCode::Numpad5, KeyCode::Numpad6, KeyCode::Numpad7, KeyCode::F20, KeyCode::Numpad8, KeyCode::Numpad9], 82),
        cg_numbered_from(seq![KeyCode::F5, KeyCode::F6, KeyCode::F7, KeyCode::F3, KeyCode::F8, KeyCode::F9], 96),
        cg_numbered_from(seq![KeyCode::F11], 103),
        cg_numbered_from(seq![KeyCode::F13, KeyCode::F16, KeyCode::F14], 105),
        cg_numbered_from(seq![KeyCode::F10], 109),
        cg_numbered_from(seq![KeyCode::F12], 111),
        cg_numbered_from(seq![KeyCode::F15, KeyCode::Insert, KeyCode::Home, KeyCode::PageUp, KeyCode::Delete, KeyCode::F4, KeyCode::End, KeyCode::F2, KeyCode::PageDown, KeyCode::F1, KeyCode::Left, KeyCode::Right, KeyCode::Down, KeyCode::Up], 113),
{
    assert(cg_numbered_from(seq![KeyCode::A, KeyCode::S, KeyCode::D, KeyCode::F, KeyCode::H, KeyCode::G, KeyCode::Z, KeyCode::X, KeyCode::C, KeyCode::V], 0)) by {
        reveal_with_fuel(cg_numbered_from, 24);
    }
    assert(cg_numbered_from(seq![KeyCode::B, KeyCode::Q, KeyCode::W, KeyCode::E, KeyCode::R, KeyCode::Y, KeyCode::T, KeyCode::Num1, KeyCode::Num2, KeyCode::Num3, KeyCode::Num4, KeyCode::Num6, KeyCode::Num5, KeyCode::Equal, KeyCode::Num9, KeyCode::Num7, KeyCode::Minus, KeyCode::Num8, KeyCode::Num0], 11)) by {
        reveal_with_fuel(cg_numbered_from, 24);
    }
    assert(cg_numbered_from(seq![KeyCode::RightBracket, KeyCode::O, KeyCode::U, KeyCode::LeftBracket, KeyCode::I, KeyCode::P, KeyCode::Enter, KeyCode::L, KeyCode::J, KeyCode::Quote, KeyCode::K, KeyCode::Semicolon, KeyCode::Backslash, KeyCode::Comma, KeyCode::Slash, KeyCode::N, KeyCode::M, KeyCode::Period, KeyCode::Tab, KeyCode::Space, KeyCode::Grave, KeyCode::Backspace], 30)) by {
        reveal_with_fuel(cg_numbered_from, 24);
    }
    assert(cg_numbered_from(seq![KeyCode::Escape, KeyCode::RMeta, KeyCode::LMeta, KeyCode::LShift, KeyCode::CapsLock, KeyCode::LAlt, KeyCode::LCtrl, KeyCode::RShift, KeyCode::RAlt, KeyCode::RCtrl], 53)) by {
        reveal_with_fuel(cg_numbered_from, 24);
    }
    assert(cg_numbered_from(seq![KeyCode::F17, KeyCode::NumpadDecimal], 64)) by {
        reveal_with_fuel(cg_numbered_from, 24);
    }
    assert(cg_numbered_from(seq![KeyCode::NumpadMultiply], 67)) by {
        reveal_with_fuel(cg_numbered_from, 24);
    }
    assert(cg_numbered_from(seq![KeyCode::NumpadAdd], 69)) by {
        reveal_with_fuel(cg_numbered_from, 24);
    }
    assert(cg_numbered_from(seq![KeyCode::NumLock, KeyCode::VolumeUp, KeyCode::VolumeDown, KeyCode::Mute, KeyCode::NumpadDivide, KeyCode::NumpadEnter], 71)) by {
        reveal_with_fuel(cg_numbered_from, 24);
    }
    assert(cg_numbered_from(seq![KeyCode::NumpadSubtract, KeyCode::F18, KeyCode::F19], 78)) by {
        reveal_with_fuel(cg_numbered_from, 24);
    }
    assert(cg_numbered_from(seq![KeyCode::Numpad0, KeyCode::Numpad1, KeyCode::Numpad2, KeyCode::Numpad3, KeyCode::Numpad4, KeyCode::Numpad5, KeyCode::Numpad6, KeyCode::Numpad7, KeyCode::F20, KeyCode::Numpad8, KeyCode::Numpad9], 82)) by {
        reveal_with_fuel(cg_numbered_from, 24);
    }
    assert(cg_numbered_from(seq![KeyCode::F5, KeyCode::F6, KeyCode::F7, KeyCode::F3, KeyCode::F8, KeyCode::F9], 96)) by {
        reveal_with_fuel(cg_numbered_from, 24);
    }
    assert(cg_numbered_from(seq![KeyCode::F11], 103)) by {
        reveal_with_fuel(cg_numbered_from, 24);
    }
    assert(cg_numbered_from(seq![KeyCode::F13, KeyCode::F16, KeyCode::F14], 105)) by {
        reveal_with_fuel(cg_numbered_from, 24);
    }
    assert(cg_numbered_from(seq![KeyCode::F10], 109)) by {
        reveal_with_fuel(cg_numbered_from, 24);
    }
    assert(cg_numbered_from(seq![KeyCode::F12], 111)) by {
        reveal_with_fuel(cg_numbered_from, 24);
    }
    assert(cg_numbered_from(seq![KeyCode::F15, KeyCode::Insert, KeyCode::Home, KeyCode::PageUp, KeyCode::Delete, KeyCode::F4, KeyCode::End, KeyCode::F2, KeyCode::PageDown, KeyCode::F1, KeyCode::Left, KeyCode::Right, KeyCode::Down, KeyCode::Up], 113)) by {
        reveal_with_fuel(cg_numbered_from, 24);
    }
}

} // verus!
