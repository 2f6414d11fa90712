//! Key code tables between the daemon's key model and Windows virtual key
//! codes (`VK_*`).

use vstd::prelude::*;
use crate::keys::KeyCode;

verus! {

/// The Windows virtual key code of a key, for the keys Windows names.
pub open spec fn vk_of_key(k: KeyCode) -> Option<u16> {
    match k {
        KeyCode::A => Some(65),
        KeyCode::B => Some(66),
        KeyCode::C => Some(67),
        KeyCode::D => Some(68),
        KeyCode::E => Some(69),
        KeyCode::F => Some(70),
        KeyCode::G => Some(71),
        KeyCode::H => Some(72),
        KeyCode::I => Some(73),
        KeyCode::J => Some(74),
        KeyCode::K => Some(75),
        KeyCode::L => Some(76),
        KeyCode::M => Some(77),
        KeyCode::N => Some(78),
        KeyCode::O => Some(79),
        KeyCode::P => Some(80),
        KeyCode::Q => Some(81),
        KeyCode::R => Some(82),
        KeyCode::S => Some(83),
        KeyCode::T => Some(84),
        KeyCode::U => Some(85),
        KeyCode::V => Some(86),
        KeyCode::W => Some(87),
        KeyCode::X => Some(88),
        KeyCode::Y => Some(89),
        KeyCode::Z => Some(90),
        KeyCode::Num0 => Some(48),
        KeyCode::Num1 => Some(49),
        KeyCode::Num2 => Some(50),
        KeyCode::Num3 => Some(51),
        KeyCode::Num4 => Some(52),
        KeyCode::Num5 => Some(53),
        KeyCode::Num6 => Some(54),
        KeyCode::Num7 => Some(55),
        KeyCode::Num8 => Some(56),
        KeyCode::Num9 => Some(57),
        KeyCode::F1 => Some(112),
        KeyCode::F2 => Some(113),
        KeyCode::F3 => Some(114),
        KeyCode::F4 => Some(115),
        KeyCode::F5 => Some(116),
        KeyCode::F6 => Some(117),
        KeyCode::F7 => Some(118),
        KeyCode::F8 => Some(119),
        KeyCode::F9 => Some(120),
        KeyCode::F10 => Some(121),
        KeyCode::F11 => Some(122),
        KeyCode::F12 => Some(123),
        KeyCode::F13 => Some(124),
        KeyCode::F14 => Some(125),
        KeyCode::F15 => Some(126),
        KeyCode::F16 => Some(127),
        KeyCode::F17 => Some(128),
        KeyCode::F18 => Some(129),
        KeyCode::F19 => Some(130),
        KeyCode::F20 => Some(131),
        KeyCode::F21 => Some(132),
        KeyCode::F22 => Some(133),
        KeyCode::F23 => Some(134),
        KeyCode::F24 => Some(135),
        KeyCode::LShift => Some(160),
        KeyCode::RShift => Some(161),
        KeyCode::LCtrl => Some(162),
        KeyCode::RCtrl => Some(163),
        KeyCode::LAlt => Some(164),
        KeyCode::RAlt => Some(165),
        KeyCode::LMeta => Some(91),
        KeyCode::RMeta => Some(92),
        KeyCode::Escape => Some(27),
        KeyCode::Enter => Some(13),
        KeyCode::Backspace => Some(8),
        KeyCode::Tab => Some(9),
        KeyCode::Space => Some(32),
        KeyCode::CapsLock => Some(20),
        KeyCode::NumLock => Some(144),
        KeyCode::ScrollLock => Some(145),
        KeyCode::PrintScreen => Some(44),
        KeyCode::Pause => Some(19),
        KeyCode::Insert => Some(45),
        KeyCode::Delete => Some(46),
        KeyCode::Home => Some(36),
        KeyCode::End => Some(35),
        KeyCode::PageUp => Some(33),
        KeyCode::PageDown => Some(34),
        KeyCode::Left => Some(37),
        KeyCode::Right => Some(39),
        KeyCode::Up => Some(38),
        KeyCode::Down => Some(40),
        KeyCode::LeftBracket => Some(219),
        KeyCode::RightBracket => Some(221),
        KeyCode::Backslash => Some(220),
        KeyCode::Semicolon => Some(186),
        KeyCode::Quote => Some(222),
        KeyCode::Comma => Some(188),
        KeyCode::Period => Some(190),
        KeyCode::Slash => Some(191),
        KeyCode::Grave => Some(192),
        KeyCode::Minus => Some(189),
        KeyCode::Equal => Some(187),
        KeyCode::Numpad0 => Some(96),
        KeyCode::Numpad1 => Some(97),
        KeyCode::Numpad2 => Some(98),
        KeyCode::Numpad3 => Some(99),
        KeyCode::Numpad4 => Some(100),
        KeyCode::Numpad5 => Some(101),
        KeyCode::Numpad6 => Some(102),
        KeyCode::Numpad7 => Some(103),
        KeyCode::Numpad8 => Some(104),
        KeyCode::Numpad9 => Some(105),
        KeyCode::NumpadDivide => Some(111),
        KeyCode::NumpadMultiply => Some(106),
        KeyCode::NumpadSubtract => Some(109),
        KeyCode::NumpadAdd => Some(107),
        KeyCode::NumpadDecimal => Some(110),
        KeyCode::Mute => Some(173),
        KeyCode::VolumeDown => Some(174),
        KeyCode::VolumeUp => Some(175),
        KeyCode::MediaPlayPause => Some(179),
        KeyCode::MediaStop => Some(178),
        KeyCode::MediaPrevious => Some(177),
        KeyCode::MediaNext => Some(176),
        KeyCode::Sleep => Some(95),
        KeyCode::BrowserBack => Some(166),
        KeyCode::BrowserForward => Some(167),
        KeyCode::BrowserRefresh => Some(168),
        KeyCode::BrowserStop => Some(169),
        KeyCode::BrowserSearch => Some(170),
        KeyCode::BrowserFavorites => Some(171),
        KeyCode::BrowserHome => Some(172),
        KeyCode::AppMail => Some(180),
        KeyCode::AppCalculator => Some(183),
        KeyCode::AppMyComputer => Some(182),
        KeyCode::Menu => Some(93),
        KeyCode::Help => Some(47),
        KeyCode::Select => Some(41),
        KeyCode::Execute => Some(43),
        KeyCode::Zenkaku => Some(25),
        KeyCode::KatakanaHiragana => Some(21),
        KeyCode::Henkan => Some(28),
        KeyCode::Muhenkan => Some(29),
        KeyCode::Iso102nd => Some(226),
        _ => None,
    }
}

/// The key a Windows virtual key code stands for, if any.
pub open spec fn key_of_vk(code: u16) -> Option<KeyCode> {
    match code {
        65 => Some(KeyCode::A),
        66 => Some(KeyCode::B),
        67 => Some(KeyCode::C),
        68 => Some(KeyCode::D),
        69 => Some(KeyCode::E),
        70 => Some(KeyCode::F),
        71 => Some(KeyCode::G),
        72 => Some(KeyCode::H),
        73 => Some(KeyCode::I),
        74 => Some(KeyCode::J),
        75 => Some(KeyCode::K),
        76 => Some(KeyCode::L),
        77 => Some(KeyCode::M),
        78 => Some(KeyCode::N),
        79 => Some(KeyCode::O),
        80 => Some(KeyCode::P),
        81 => Some(KeyCode::Q),
        82 => Some(KeyCode::R),
        83 => Some(KeyCode::S),
        84 => Some(KeyCode::T),
        85 => Some(KeyCode::U),
        86 => Some(KeyCode::V),
        87 => Some(KeyCode::W),
        88 => Some(KeyCode::X),
        89 => Some(KeyCode::Y),
        90 => Some(KeyCode::Z),
        48 => Some(KeyCode::Num0),
        49 => Some(KeyCode::Num1),
        50 => Some(KeyCode::Num2),
        51 => Some(KeyCode::Num3),
        52 => Some(KeyCode::Num4),
        53 => Some(KeyCode::Num5),
        54 => Some(KeyCode::Num6),
        55 => Some(KeyCode::Num7),
        56 => Some(KeyCode::Num8),
        57 => Some(KeyCode::Num9),
        112 => Some(KeyCode::F1),
        113 => Some(KeyCode::F2),
        114 => Some(KeyCode::F3),
        115 => Some(KeyCode::F4),
        116 => Some(KeyCode::F5),
        117 => Some(KeyCode::F6),
        118 => Some(KeyCode::F7),
        119 => Some(KeyCode::F8),
        120 => Some(KeyCode::F9),
        121 => Some(KeyCode::F10),
        122 => Some(KeyCode::F11),
        123 => Some(KeyCode::F12),
        124 => Some(KeyCode::F13),
        125 => Some(KeyCode::F14),
        126 => Some(KeyCode::F15),
        127 => Some(KeyCode::F16),
        128 => Some(KeyCode::F17),
        129 => Some(KeyCode::F18),
        130 => Some(KeyCode::F19),
        131 => Some(KeyCode::F20),
        132 => Some(KeyCode::F21),
        133 => Some(KeyCode::F22),
        134 => Some(KeyCode::F23),
        135 => Some(KeyCode::F24),
        160 => Some(KeyCode::LShift),
        161 => Some(KeyCode::RShift),
        162 => Some(KeyCode::LCtrl),
        163 => Some(KeyCode::RCtrl),
        164 => Some(KeyCode::LAlt),
        165 => Some(KeyCode::RAlt),
        91 => Some(KeyCode::LMeta),
        92 => Some(KeyCode::RMeta),
        27 => Some(KeyCode::Escape),
        13 => Some(KeyCode::Enter),
        8 => Some(KeyCode::Backspace),
        9 => Some(KeyCode::Tab),
        32 => Some(KeyCode::Space),
        20 => Some(KeyCode::CapsLock),
        144 => Some(KeyCode::NumLock),
        145 => Some(KeyCode::ScrollLock),
        44 => Some(KeyCode::PrintScreen),
        19 => Some(KeyCode::Pause),
        45 => Some(KeyCode::Insert),
        46 => Some(KeyCode::Delete),
        36 => Some(KeyCode::Home),
        35 => Some(KeyCode::End),
        33 => Some(KeyCode::PageUp),
        34 => Some(KeyCode::PageDown),
        37 => Some(KeyCode::Left),
        39 => Some(KeyCode::Right),
        38 => Some(KeyCode::Up),
        40 => Some(KeyCode::Down),
        219 => Some(KeyCode::LeftBracket),
        221 => Some(KeyCode::RightBracket),
        220 => Some(KeyCode::Backslash),
        186 => Some(KeyCode::Semicolon),
        222 => Some(KeyCode::Quote),
        188 => Some(KeyCode::Comma),
        190 => Some(KeyCode::Period),
        191 => Some(KeyCode::Slash),
        192 => Some(KeyCode::Grave),
        189 => Some(KeyCode::Minus),
        187 => Some(KeyCode::Equal),
        96 => Some(KeyCode::Numpad0),
        97 => Some(KeyCode::Numpad1),
        98 => Some(KeyCode::Numpad2),
        99 => Some(KeyCode::Numpad3),
        100 => Some(KeyCode::Numpad4),
        101 => Some(KeyCode::Numpad5),
        102 => Some(KeyCode::Numpad6),
        103 => Some(KeyCode::Numpad7),
        104 => Some(KeyCode::Numpad8),
        105 => Some(KeyCode::Numpad9),
        111 => Some(KeyCode::NumpadDivide),
        106 => Some(KeyCode::NumpadMultiply),
        109 => Some(KeyCode::NumpadSubtract),
        107 => Some(KeyCode::NumpadAdd),
        110 => Some(KeyCode::NumpadDecimal),
        173 => Some(KeyCode::Mute),
        174 => Some(KeyCode::VolumeDown),
        175 => Some(KeyCode::VolumeUp),
        179 => Some(KeyCode::MediaPlayPause),
        178 => Some(KeyCode::MediaStop),
        177 => Some(KeyCode::MediaPrevious),
        176 => Some(KeyCode::MediaNext),
        95 => Some(KeyCode::Sleep),
        166 => Some(KeyCode::BrowserBack),
        167 => Some(KeyCode::BrowserForward),
        168 => Some(KeyCode::BrowserRefresh),
        169 => Some(KeyCode::BrowserStop),
        170 => Some(KeyCode::BrowserSearch),
        171 => Some(KeyCode::BrowserFavorites),
        172 => Some(KeyCode::BrowserHome),
        180 => Some(KeyCode::AppMail),
        183 => Some(KeyCode::AppCalculator),
        182 => Some(KeyCode::AppMyComputer),
        93 => Some(KeyCode::Menu),
        47 => Some(KeyCode::Help),
        41 => Some(KeyCode::Select),
        43 => Some(KeyCode::Execute),
        25 => Some(KeyCode::Zenkaku),
        21 => Some(KeyCode::KatakanaHiragana),
        28 => Some(KeyCode::Henkan),
        29 => Some(KeyCode::Muhenkan),
        226 => Some(KeyCode::Iso102nd),
        _ => None,
    }
}

/// Converts a Windows virtual key code to a key.
pub fn vk_to_keycode(vk: u16) -> (r: Option<KeyCode>)
    ensures
        r == key_of_vk(vk),
{
    match vk {
        65 => Some(KeyCode::A),
        66 => Some(KeyCode::B),
        67 => Some(KeyCode::C),
        68 => Some(KeyCode::D),
        69 => Some(KeyCode::E),
        70 => Some(KeyCode::F),
        71 => Some(KeyCode::G),
        72 => Some(KeyCode::H),
        73 => Some(KeyCode::I),
        74 => Some(KeyCode::J),
        75 => Some(KeyCode::K),
        76 => Some(KeyCode::L),
        77 => Some(KeyCode::M),
        78 => Some(KeyCode::N),
        79 => Some(KeyCode::O),
        80 => Some(KeyCode::P),
        81 => Some(KeyCode::Q),
        82 => Some(KeyCode::R),
        83 => Some(KeyCode::S),
        84 => Some(KeyCode::T),
        85 => Some(KeyCode::U),
        86 => Some(KeyCode::V),
        87 => Some(KeyCode::W),
        88 => Some(KeyCode::X),
        89 => Some(KeyCode::Y),
        90 => Some(KeyCode::Z),
        48 => Some(KeyCode::Num0),
        49 => Some(KeyCode::Num1),
        50 => Some(KeyCode::Num2),
        51 => Some(KeyCode::Num3),
        52 => Some(KeyCode::Num4),
        53 => Some(KeyCode::Num5),
        54 => Some(KeyCode::Num6),
        55 => Some(KeyCode::Num7),
        56 => Some(KeyCode::Num8),
        57 => Some(KeyCode::Num9),
        112 => Some(KeyCode::F1),
        113 => Some(KeyCode::F2),
        114 => Some(KeyCode::F3),
        115 => Some(KeyCode::F4),
        116 => Some(KeyCode::F5),
        117 => Some(KeyCode::F6),
        118 => Some(KeyCode::F7),
        119 => Some(KeyCode::F8),
        120 => Some(KeyCode::F9),
        121 => Some(KeyCode::F10),
        122 => Some(KeyCode::F11),
        123 => Some(KeyCode::F12),
        124 => Some(KeyCode::F13),
        125 => Some(KeyCode::F14),
        126 => Some(KeyCode::F15),
        127 => Some(KeyCode::F16),
        128 => Some(KeyCode::F17),
        129 => Some(KeyCode::F18),
        130 => Some(KeyCode::F19),
        131 => Some(KeyCode::F20),
        132 => Some(KeyCode::F21),
        133 => Some(KeyCode::F22),
        134 => Some(KeyCode::F23),
        135 => Some(KeyCode::F24),
        160 => Some(KeyCode::LShift),
        161 => Some(KeyCode::RShift),
        162 => Some(KeyCode::LCtrl),
        163 => Some(KeyCode::RCtrl),
        164 => Some(KeyCode::LAlt),
        165 => Some(KeyCode::RAlt),
        91 => Some(KeyCode::LMeta),
        92 => Some(KeyCode::RMeta),
        27 => Some(KeyCode::Escape),
        13 => Some(KeyCode::Enter),
        8 => Some(KeyCode::Backspace),
        9 => Some(KeyCode::Tab),
        32 => Some(KeyCode::Space),
        20 => Some(KeyCode::CapsLock),
        144 => Some(KeyCode::NumLock),
        145 => Some(KeyCode::ScrollLock),
        44 => Some(KeyCode::PrintScreen),
        19 => Some(KeyCode::Pause),
        45 => Some(KeyCode::Insert),
        46 => Some(KeyCode::Delete),
        36 => Some(KeyCode::Home),
        35 => Some(KeyCode::End),
        33 => Some(KeyCode::PageUp),
        34 => Some(KeyCode::PageDown),
        37 => Some(KeyCode::Left),
        39 => Some(KeyCode::Right),
        38 => Some(KeyCode::Up),
        40 => Some(KeyCode::Down),
        219 => Some(KeyCode::LeftBracket),
        221 => Some(KeyCode::RightBracket),
        220 => Some(KeyCode::Backslash),
        186 => Some(KeyCode::Semicolon),
        222 => Some(KeyCode::Quote),
        188 => Some(KeyCode::Comma),
        190 => Some(KeyCode::Period),
        191 => Some(KeyCode::Slash),
        192 => Some(KeyCode::Grave),
        189 => Some(KeyCode::Minus),
        187 => Some(KeyCode::Equal),
        96 => Some(KeyCode::Numpad0),
        97 => Some(KeyCode::Numpad1),
        98 => Some(KeyCode::Numpad2),
        99 => Some(KeyCode::Numpad3),
        100 => Some(KeyCode::Numpad4),
        101 => Some(KeyCode::Numpad5),
        102 => Some(KeyCode::Numpad6),
        103 => Some(KeyCode::Numpad7),
        104 => Some(KeyCode::Numpad8),
        105 => Some(KeyCode::Numpad9),
        111 => Some(KeyCode::NumpadDivide),
        106 => Some(KeyCode::NumpadMultiply),
        109 => Some(KeyCode::NumpadSubtract),
        107 => Some(KeyCode::NumpadAdd),
        110 => Some(KeyCode::NumpadDecimal),
        173 => Some(KeyCode::Mute),
        174 => Some(KeyCode::VolumeDown),
        175 => Some(KeyCode::VolumeUp),
        179 => Some(KeyCode::MediaPlayPause),
        178 => Some(KeyCode::MediaStop),
        177 => Some(KeyCode::MediaPrevious),
        176 => Some(KeyCode::MediaNext),
        95 => Some(KeyCode::Sleep),
        166 => Some(KeyCode::BrowserBack),
        167 => Some(KeyCode::BrowserForward),
        168 => Some(KeyCode::BrowserRefresh),
        169 => Some(KeyCode::BrowserStop),
        170 => Some(KeyCode::BrowserSearch),
        171 => Some(KeyCode::BrowserFavorites),
        172 => Some(KeyCode::BrowserHome),
        180 => Some(KeyCode::AppMail),
        183 => Some(KeyCode::AppCalculator),
        182 => Some(KeyCode::AppMyComputer),
        93 => Some(KeyCode::Menu),
        47 => Some(KeyCode::Help),
        41 => Some(KeyCode::Select),
        43 => Some(KeyCode::Execute),
        25 => Some(KeyCode::Zenkaku),
        21 => Some(KeyCode::KatakanaHiragana),
        28 => Some(KeyCode::Henkan),
        29 => Some(KeyCode::Muhenkan),
        226 => Some(KeyCode::Iso102nd),
        _ => None,
    }
}

/// Converts a key to its Windows virtual key code.
pub fn keycode_to_vk(keycode: KeyCode) -> (r: Option<u16>)
    ensures
        r == vk_of_key(keycode),
{
    match keycode {
        KeyCode::A => Some(65),
        KeyCode::B => Some(66),
        KeyCode::C => Some(67),
        KeyCode::D => Some(68),
        KeyCode::E => Some(69),
        KeyCode::F => Some(70),
        KeyCode::G => Some(71),
        KeyCode::H => Some(72),
        KeyCode::I => Some(73),
        KeyCode::J => Some(74),
        KeyCode::K => Some(75),
        KeyCode::L => Some(76),
        KeyCode::M => Some(77),
        KeyCode::N => Some(78),
        KeyCode::O => Some(79),
        KeyCode::P => Some(80),
        KeyCode::Q => Some(81),
        KeyCode::R => Some(82),
        KeyCode::S => Some(83),
        KeyCode::T => Some(84),
        KeyCode::U => Some(85),
        KeyCode::V => Some(86),
        KeyCode::W => Some(87),
        KeyCode::X => Some(88),
        KeyCode::Y => Some(89),
        KeyCode::Z => Some(90),
        KeyCode::Num0 => Some(48),
        KeyCode::Num1 => Some(49),
        KeyCode::Num2 => Some(50),
        KeyCode::Num3 => Some(51),
        KeyCode::Num4 => Some(52),
        KeyCode::Num5 => Some(53),
        KeyCode::Num6 => Some(54),
        KeyCode::Num7 => Some(55),
        KeyCode::Num8 => Some(56),
        KeyCode::Num9 => Some(57),
        KeyCode::F1 => Some(112),
        KeyCode::F2 => Some(113),
        KeyCode::F3 => Some(114),
        KeyCode::F4 => Some(115),
        KeyCode::F5 => Some(116),
        KeyCode::F6 => Some(117),
        KeyCode::F7 => Some(118),
        KeyCode::F8 => Some(119),
        KeyCode::F9 => Some(120),
        KeyCode::F10 => Some(121),
        KeyCode::F11 => Some(122),
        KeyCode::F12 => Some(123),
        KeyCode::F13 => Some(124),
        KeyCode::F14 => Some(125),
        KeyCode::F15 => Some(126),
        KeyCode::F16 => Some(127),
        KeyCode::F17 => Some(128),
        KeyCode::F18 => Some(129),
        KeyCode::F19 => Some(130),
        KeyCode::F20 => Some(131),
        KeyCode::F21 => Some(132),
        KeyCode::F22 => Some(133),
        KeyCode::F23 => Some(134),
        KeyCode::F24 => Some(135),
        KeyCode::LShift => Some(160),
        KeyCode::RShift => Some(161),
        KeyCode::LCtrl => Some(162),
        KeyCode::RCtrl => Some(163),
        KeyCode::LAlt => Some(164),
        KeyCode::RAlt => Some(165),
        KeyCode::LMeta => Some(91),
        KeyCode::RMeta => Some(92),
        KeyCode::Escape => Some(27),
        KeyCode::Enter => Some(13),
        KeyCode::Backspace => Some(8),
        KeyCode::Tab => Some(9),
        KeyCode::Space => Some(32),
        KeyCode::CapsLock => Some(20),
        KeyCode::NumLock => Some(144),
        KeyCode::ScrollLock => Some(145),
        KeyCode::PrintScreen => Some(44),
        KeyCode::Pause => Some(19),
        KeyCode::Insert => Some(45),
        KeyCode::Delete => Some(46),
        KeyCode::Home => Some(36),
        KeyCode::End => Some(35),
        KeyCode::PageUp => Some(33),
        KeyCode::PageDown => Some(34),
        KeyCode::Left => Some(37),
        KeyCode::Right => Some(39),
        KeyCode::Up => Some(38),
        KeyCode::Down => Some(40),
        KeyCode::LeftBracket => Some(219),
        KeyCode::RightBracket => Some(221),
        KeyCode::Backslash => Some(220),
        KeyCode::Semicolon => Some(186),
        KeyCode::Quote => Some(222),
        KeyCode::Comma => Some(188),
        KeyCode::Period => Some(190),
        KeyCode::Slash => Some(191),
        KeyCode::Grave => Some(192),
        KeyCode::Minus => Some(189),
        KeyCode::Equal => Some(187),
        KeyCode::Numpad0 => Some(96),
        KeyCode::Numpad1 => Some(97),
        KeyCode::Numpad2 => Some(98),
        KeyCode::Numpad3 => Some(99),
        KeyCode::Numpad4 => Some(100),
        KeyCode::Numpad5 => Some(101),
        KeyCode::Numpad6 => Some(102),
        KeyCode::Numpad7 => Some(103),
        KeyCode::Numpad8 => Some(104),
        KeyCode::Numpad9 => Some(105),
        KeyCode::NumpadDivide => Some(111),
        KeyCode::NumpadMultiply => Some(106),
        KeyCode::NumpadSubtract => Some(109),
        KeyCode::NumpadAdd => Some(107),
        KeyCode::NumpadDecimal => Some(110),
        KeyCode::Mute => Some(173),
        KeyCode::VolumeDown => Some(174),
        KeyCode::VolumeUp => Some(175),
        KeyCode::MediaPlayPause => Some(179),
        KeyCode::MediaStop => Some(178),
        KeyCode::MediaPrevious => Some(177),
        KeyCode::MediaNext => Some(176),
        KeyCode::Sleep => Some(95),
        KeyCode::BrowserBack => Some(166),
        KeyCode::BrowserForward => Some(167),
        KeyCode::BrowserRefresh => Some(168),
        KeyCode::BrowserStop => Some(169),
        KeyCode::BrowserSearch => Some(170),
        KeyCode::BrowserFavorites => Some(171),
        KeyCode::BrowserHome => Some(172),
        KeyCode::AppMail => Some(180),
        KeyCode::AppCalculator => Some(183),
        KeyCode::AppMyComputer => Some(182),
        KeyCode::Menu => Some(93),
        KeyCode::Help => Some(47),
        KeyCode::Select => Some(41),
        KeyCode::Execute => Some(43),
        KeyCode::Zenkaku => Some(25),
        KeyCode::KatakanaHiragana => Some(21),
        KeyCode::Henkan => Some(28),
        KeyCode::Muhenkan => Some(29),
        KeyCode::Iso102nd => Some(226),
        _ => None,
    }
}

/// Converting a mapped key to its code and back gives the same key.
pub proof fn lemma_vk_roundtrip(k: KeyCode, code: u16)
    requires
        vk_of_key(k) == Some(code),
    ensures
        key_of_vk(code) == Some(k),
{
    match k {
        KeyCode::A => {},
        KeyCode::B => {},
        KeyCode::C => {},
        KeyCode::D => {},
        KeyCode::E => {},
        KeyCode::F => {},
        KeyCode::G => {},
        KeyCode::H => {},
        KeyCode::I => {},
        KeyCode::J => {},
        KeyCode::K => {},
        KeyCode::L => {},
        KeyCode::M => {},
        KeyCode::N => {},
        KeyCode::O => {},
        KeyCode::P => {},
        KeyCode::Q => {},
        KeyCode::R => {},
        KeyCode::S => {},
        KeyCode::T => {},
        KeyCode::U => {},
        KeyCode::V => {},
        KeyCode::W => {},
        KeyCode::X => {},
        KeyCode::Y => {},
        KeyCode::Z => {},
        KeyCode::Num0 => {},
        KeyCode::Num1 => {},
        KeyCode::Num2 => {},
        KeyCode::Num3 => {},
        KeyCode::Num4 => {},
        KeyCode::Num5 => {},
        KeyCode::Num6 => {},
        KeyCode::Num7 => {},
        KeyCode::Num8 => {},
        KeyCode::Num9 => {},
        KeyCode::F1 => {},
        KeyCode::F2 => {},
        KeyCode::F3 => {},
        KeyCode::F4 => {},
        KeyCode::F5 => {},
        KeyCode::F6 => {},
        KeyCode::F7 => {},
        KeyCode::F8 => {},
        KeyCode::F9 => {},
        KeyCode::F10 => {},
        KeyCode::F11 => {},
        KeyCode::F12 => {},
        KeyCode::F13 => {},
        KeyCode::F14 => {},
        KeyCode::F15 => {},
        KeyCode::F16 => {},
        KeyCode::F17 => {},
        KeyCode::F18 => {},
        KeyCode::F19 => {},
        KeyCode::F20 => {},
        KeyCode::F21 => {},
        KeyCode::F22 => {},
        KeyCode::F23 => {},
        KeyCode::F24 => {},
        KeyCode::LShift => {},
        KeyCode::RShift => {},
        KeyCode::LCtrl => {},
        KeyCode::RCtrl => {},
        KeyCode::LAlt => {},
        KeyCode::RAlt => {},
        KeyCode::LMeta => {},
        KeyCode::RMeta => {},
        KeyCode::Escape => {},
        KeyCode::Enter => {},
        KeyCode::Backspace => {},
        KeyCode::Tab => {},
        KeyCode::Space => {},
        KeyCode::CapsLock => {},
        KeyCode::NumLock => {},
        KeyCode::ScrollLock => {},
        KeyCode::PrintScreen => {},
        KeyCode::Pause => {},
        KeyCode::Insert => {},
        KeyCode::Delete => {},
        KeyCode::Home => {},
        KeyCode::End => {},
        KeyCode::PageUp => {},
        KeyCode::PageDown => {},
        KeyCode::Left => {},
        KeyCode::Right => {},
        KeyCode::Up => {},
        KeyCode::Down => {},
        KeyCode::LeftBracket => {},
        KeyCode::RightBracket => {},
        KeyCode::Backslash => {},
        KeyCode::Semicolon => {},
        KeyCode::Quote => {},
        KeyCode::Comma => {},
        KeyCode::Period => {},
        KeyCode::Slash => {},
        KeyCode::Grave => {},
        KeyCode::Minus => {},
        KeyCode::Equal => {},
        KeyCode::Numpad0 => {},
        KeyCode::Numpad1 => {},
        KeyCode::Numpad2 => {},
        KeyCode::Numpad3 => {},
        KeyCode::Numpad4 => {},
        KeyCode::Numpad5 => {},
        KeyCode::Numpad6 => {},
        KeyCode::Numpad7 => {},
        KeyCode::Numpad8 => {},
        KeyCode::Numpad9 => {},
        KeyCode::NumpadDivide => {},
        KeyCode::NumpadMultiply => {},
        KeyCode::NumpadSubtract => {},
        KeyCode::NumpadAdd => {},
        KeyCode::NumpadEnter => {},
        KeyCode::NumpadDecimal => {},
        KeyCode::Mute => {},
        KeyCode::VolumeDown => {},
        KeyCode::VolumeUp => {},
        KeyCode::MediaPlayPause => {},
        KeyCode::MediaStop => {},
        KeyCode::MediaPrevious => {},
        KeyCode::MediaNext => {},
        KeyCode::Power => {},
        KeyCode::Sleep => {},
        KeyCode::Wake => {},
        KeyCode::BrowserBack => {},
        KeyCode::BrowserForward => {},
        KeyCode::BrowserRefresh => {},
        KeyCode::BrowserStop => {},
        KeyCode::BrowserSearch => {},
        KeyCode::BrowserFavorites => {},
        KeyCode::BrowserHome => {},
        KeyCode::AppMail => {},
        KeyCode::AppCalculator => {},
        KeyCode::AppMyComputer => {},
        KeyCode::Menu => {},
        KeyCode::Help => {},
        KeyCode::Select => {},
        KeyCode::Execute => {},
        KeyCode::Undo => {},
        KeyCode::Redo => {},
        KeyCode::Cut => {},
        KeyCode::Copy => {},
        KeyCode::Paste => {},
        KeyCode::Find => {},
        KeyCode::Zenkaku => {},
        KeyCode::Katakana => {},
        KeyCode::Hiragana => {},
        KeyCode::Henkan => {},
        KeyCode::Muhenkan => {},
        KeyCode::Yen => {},
        KeyCode::Ro => {},
        KeyCode::KatakanaHiragana => {},
        KeyCode::Hangeul => {},
        KeyCode::Hanja => {},
        KeyCode::Iso102nd => {},
    }
}

/// A code that names a key is that key's code, so the two tables are
/// inverse to each other.
pub proof fn lemma_vk_inverse(code: u16, k: KeyCode)
    requires
        key_of_vk(code) == Some(k),
    ensures
        vk_of_key(k) == Some(code),
{
    match k {
        KeyCode::A => {},
        KeyCode::B => {},
        KeyCode::C => {},
        KeyCode::D => {},
        KeyCode::E => {},
        KeyCode::F => {},
        KeyCode::G => {},
        KeyCode::H => {},
        KeyCode::I => {},
        KeyCode::J => {},
        KeyCode::K => {},
        KeyCode::L => {},
        KeyCode::M => {},
        KeyCode::N => {},
        KeyCode::O => {},
        KeyCode::P => {},
        KeyCode::Q => {},
        KeyCode::R => {},
        KeyCode::S => {},
        KeyCode::T => {},
        KeyCode::U => {},
        KeyCode::V => {},
        KeyCode::W => {},
        KeyCode::X => {},
        KeyCode::Y => {},
        KeyCode::Z => {},
        KeyCode::Num0 => {},
        KeyCode::Num1 => {},
        KeyCode::Num2 => {},
        KeyCode::Num3 => {},
        KeyCode::Num4 => {},
        KeyCode::Num5 => {},
        KeyCode::Num6 => {},
        KeyCode::Num7 => {},
        KeyCode::Num8 => {},
        KeyCode::Num9 => {},
        KeyCode::F1 => {},
        KeyCode::F2 => {},
        KeyCode::F3 => {},
        KeyCode::F4 => {},
        KeyCode::F5 => {},
        KeyCode::F6 => {},
        KeyCode::F7 => {},
        KeyCode::F8 => {},
        KeyCode::F9 => {},
        KeyCode::F10 => {},
        KeyCode::F11 => {},
        KeyCode::F12 => {},
        KeyCode::F13 => {},
        KeyCode::F14 => {},
        KeyCode::F15 => {},
        KeyCode::F16 => {},
        KeyCode::F17 => {},
        KeyCode::F18 => {},
        KeyCode::F19 => {},
        KeyCode::F20 => {},
        KeyCode::F21 => {},
        KeyCode::F22 => {},
        KeyCode::F23 => {},
        KeyCode::F24 => {},
        KeyCode::LShift => {},
        KeyCode::RShift => {},
        KeyCode::LCtrl => {},
        KeyCode::RCtrl => {},
        KeyCode::LAlt => {},
        KeyCode::RAlt => {},
        KeyCode::LMeta => {},
        KeyCode::RMeta => {},
        KeyCode::Escape => {},
        KeyCode::Enter => {},
        KeyCode::Backspace => {},
        KeyCode::Tab => {},
        KeyCode::Space => {},
        KeyCode::CapsLock => {},
        KeyCode::NumLock => {},
        KeyCode::ScrollLock => {},
        KeyCode::PrintScreen => {},
        KeyCode::Pause => {},
        KeyCode::Insert => {},
        KeyCode::Delete => {},
        KeyCode::Home => {},
        KeyCode::End => {},
        KeyCode::PageUp => {},
        KeyCode::PageDown => {},
        KeyCode::Left => {},
        KeyCode::Right => {},
        KeyCode::Up => {},
        KeyCode::Down => {},
        KeyCode::LeftBracket => {},
        KeyCode::RightBracket => {},
        KeyCode::Backslash => {},
        KeyCode::Semicolon => {},
        KeyCode::Quote => {},
        KeyCode::Comma => {},
        KeyCode::Period => {},
        KeyCode::Slash => {},
        KeyCode::Grave => {},
        KeyCode::Minus => {},
        KeyCode::Equal => {},
        KeyCode::Numpad0 => {},
        KeyCode::Numpad1 => {},
        KeyCode::Numpad2 => {},
        KeyCode::Numpad3 => {},
        KeyCode::Numpad4 => {},
        KeyCode::Numpad5 => {},
        KeyCode::Numpad6 => {},
        KeyCode::Numpad7 => {},
        KeyCode::Numpad8 => {},
        KeyCode::Numpad9 => {},
        KeyCode::NumpadDivide => {},
        KeyCode::NumpadMultiply => {},
        KeyCode::NumpadSubtract => {},
        KeyCode::NumpadAdd => {},
        KeyCode::NumpadEnter => {},
        KeyCode::NumpadDecimal => {},
        KeyCode::Mute => {},
        KeyCode::VolumeDown => {},
        KeyCode::VolumeUp => {},
        KeyCode::MediaPlayPause => {},
        KeyCode::MediaStop => {},
        KeyCode::MediaPrevious => {},
        KeyCode::MediaNext => {},
        KeyCode::Power => {},
        KeyCode::Sleep => {},
        KeyCode::Wake => {},
        KeyCode::BrowserBack => {},
        KeyCode::BrowserForward => {},
        KeyCode::BrowserRefresh => {},
        KeyCode::BrowserStop => {},
        KeyCode::BrowserSearch => {},
        KeyCode::BrowserFavorites => {},
        KeyCode::BrowserHome => {},
        KeyCode::AppMail => {},
        KeyCode::AppCalculator => {},
        KeyCode::AppMyComputer => {},
        KeyCode::Menu => {},
        KeyCode::Help => {},
        KeyCode::Select => {},
        KeyCode::Execute => {},
        KeyCode::Undo => {},
        KeyCode::Redo => {},
        KeyCode::Cut => {},
        KeyCode::Copy => {},
        KeyCode::Paste => {},
        KeyCode::Find => {},
        KeyCode::Zenkaku => {},
        KeyCode::Katakana => {},
        KeyCode::Hiragana => {},
        KeyCode::Henkan => {},
        KeyCode::Muhenkan => {},
        KeyCode::Yen => {},
        KeyCode::Ro => {},
        KeyCode::KatakanaHiragana => {},
        KeyCode::Hangeul => {},
        KeyCode::Hanja => {},
        KeyCode::Iso102nd => {},
    }
}

/// Different keys never share a code.
pub proof fn lemma_vk_injective(k1: KeyCode, k2: KeyCode, code: u16)
    requires
        vk_of_key(k1) == Some(code),
        vk_of_key(k2) == Some(code),
    ensures
        k1 == k2,
{
    lemma_vk_roundtrip(k1, code);
    lemma_vk_roundtrip(k2, code);
}

/// Whether a virtual key needs the extended-key flag when injected (right
/// Alt/Ctrl, the navigation block and the arrows).
pub open spec fn is_extended_vk(vk: u16) -> bool {
    vk == 165 || vk == 163 || vk == 45 || vk == 46 || vk == 36 || vk == 35 || vk == 33 || vk == 34 || vk == 38 || vk == 40 || vk == 37 || vk == 39
}

/// Whether a virtual key needs the extended-key flag when injected.
pub fn is_extended_key(vk: u16) -> (r: bool)
    ensures
        r == is_extended_vk(vk),
{
    vk == 165 || vk == 163 || vk == 45 || vk == 46 || vk == 36 || vk == 35 || vk == 33 || vk == 34 || vk == 38 || vk == 40 || vk == 37 || vk == 39
}

/// Decoding a virtual-key code is inverting the key-to-code table: a code
/// decodes to the one key whose code it is, and to nothing when no key has
/// it.
pub proof fn law_vk_decoding_inverts_encoding(code: u16)
    ensures
        key_of_vk(code) == (if exists|k: KeyCode| vk_of_key(k) == Some(code) {
            Some(choose|k: KeyCode| vk_of_key(k) == Some(code))
        } else {
            None
        }),
{
    if exists|k: KeyCode| vk_of_key(k) == Some(code) {
        let k = choose|k: KeyCode| vk_of_key(k) == Some(code);
        lemma_vk_roundtrip(k, code);
    } else {
        match key_of_vk(code) {
            Some(k) => {
                lemma_vk_inverse(code, k);
            },
            None => {},
        }
    }
}

/// Whether the keys of `keys` have the consecutive virtual-key codes `start`,
/// `start + 1`, and so on.
pub open spec fn vk_numbered_from(keys: Seq<KeyCode>, start: int) -> bool
    decreases keys.len(),
{
    if keys.len() == 0 {
        true
    } else {
        (vk_of_key(keys[0]) matches Some(c) && c == start) && vk_numbered_from(keys.drop_first(), start + 1)
    }
}

/// Every mapped key carries its Windows virtual-key code (`VK_*` of
/// `winuser.h`): the keys listed in the order of their codes, run by run
/// of consecutive codes; `VK_BACK` is 0x08, `VK_ESCAPE` 0x1B, `VK_SPACE`
/// 0x20, the digits 0x30 to 0x39, the letters `A` to `Z` 0x41 to 0x5A,
/// `VK_F1` to `VK_F24` 0x70 to 0x87 and `VK_LSHIFT` 0xA0.
#[verifier::spinoff_prover]
#[verifier::rlimit(100)]
pub proof fn law_vk_codes_follow_windows_numbering()
    ensures
        vk_numbered_from(seq![KeyCode::Backspace, KeyCode::Tab], 8),
        vk_numbered_from(seq![KeyCode::Enter], 13),
        vk_numbered_from(seq![KeyCode::Pause, KeyCode::CapsLock, KeyCode::KatakanaHiragana], 19),
        vk_numbered_from(seq![KeyCode::Zenkaku], 25),
        vk_numbered_from(seq![KeyCode::Escape, KeyCode::Henkan, KeyCode::Muhenkan], 27),
        vk_numbered_from(seq![KeyCode::Space, KeyCode::PageUp, KeyCode::PageDown, KeyCode::End, KeyCode::Home, KeyCode::Left, KeyCode::Up, KeyCode::Right, KeyCode::Down, KeyCode::Select], 32),
        vk_numbered_from(seq![KeyCode::Execute, KeyCode::PrintScreen, KeyCode::Insert, KeyCode::Delete, KeyCode::Help], 43),
        vk_numbered_from(seq![KeyCode::Num0, KeyCode::Num1, KeyCode::Num2, KeyCode::Num3, KeyCode::Num4, KeyCode::Num5, KeyCode::Num6, KeyCode::Num7, KeyCode::Num8, KeyCode::Num9], 48),
        vk_numbered_from(seq![KeyCode::A, KeyCode::B, KeyCode::C, KeyCode::D, KeyCode::E, KeyCode::F, KeyCode::G, KeyCode::H, KeyCode::I, KeyCode::J, KeyCode::K, KeyCode::L, KeyCode::M, KeyCode::N, KeyCode::O, KeyCode::P, KeyCode::Q, KeyCode::R, KeyCode::S, KeyCode::T, KeyCode::U, KeyCode::V, KeyCode::W, KeyCode::X, KeyCode::Y, KeyCode::Z], 65),
        vk_numbered_from(seq![KeyCode::LMeta, KeyCode::RMeta, KeyCode::Menu], 91),
        vk_numbered_from(seq![KeyCode::Sleep, KeyCode::Numpad0, KeyCode::Numpad1, KeyCode::Numpad2, KeyCode::Numpad3, KeyCode::Numpad4, KeyCode::Numpad5, KeyCode::Numpad6, KeyCode::Numpad7, KeyCode::Numpad8, KeyCode::Numpad9, KeyCode::NumpadMultiply, KeyCode::NumpadAdd], 95),
        vk_numbered_from(seq![KeyCode::NumpadSubtract, KeyCode::NumpadDecimal, KeyCode::NumpadDivide], 109),
        vk_numbered_from(seq![KeyCode::F1, KeyCode::F2, KeyCode::F3, KeyCode::F4, KeyCode::F5, KeyCode::F6, KeyCode::F7, KeyCode::F8, KeyCode::F9, KeyCode::F10, KeyCode::F11, KeyCode::F12, KeyCode::F13, KeyCode::F14, KeyCode::F15, KeyCode::F16, KeyCode::F17, KeyCode::F18, KeyCode::F19, KeyCode::F20, KeyCode::F21, KeyCode::F22, KeyCode::F23, KeyCode::F24], 112),
        vk_numbered_from(seq![KeyCode::NumLock, KeyCode::ScrollLock], 144),
        vk_numbered_from(seq![KeyCode::LShift, KeyCode::RShift, KeyCode::LCtrl, KeyCode::RCtrl, KeyCode::LAlt, KeyCode::RAlt, KeyCode::BrowserBack, KeyCode::BrowserForward, KeyCode::BrowserRefresh, KeyCode::BrowserStop, KeyCode::BrowserSearch, KeyCode::BrowserFavorites, KeyCode::BrowserHome, KeyCode::Mute, KeyCode::VolumeDown, KeyCode::VolumeUp, KeyCode::MediaNext, KeyCode::MediaPrevious, KeyCode::MediaStop, KeyCode::MediaPlayPause, KeyCode::AppMail], 160),
        vk_numbered_from(seq![KeyCode::AppMyComputer, KeyCode::AppCalculator], 182),
        vk_numbered_from(seq![KeyCode::Semicolon, KeyCode::Equal, KeyCode::Comma, KeyCode::Minus, KeyCode::Period, KeyCode::Slash, KeyCode::Grave], 186),
        vk_numbered_from(seq![KeyCode::LeftBracket, KeyCode::Backslash, KeyCode::RightBracket, KeyCode::Quote], 219),
        vk_numbered_from(seq![KeyCode::Iso102nd], 226),
{
    assert(vk_numbered_from(seq![KeyCode::Backspace, KeyCode::Tab], 8)) by {
        reveal_with_fuel(vk_numbered_from, 28);
    }
    assert(vk_numbered_from(seq![KeyCode::Enter], 13)) by {
        reveal_with_fuel(vk_numbered_from, 28);
    }
    assert(vk_numbered_from(seq![KeyCode::Pause, KeyCode::CapsLock, KeyCode::KatakanaHiragana], 19)) by {
        reveal_with_fuel(vk_numbered_from, 28);
    }
    assert(vk_numbered_from(seq![KeyCode::Zenkaku], 25)) by {
        reveal_with_fuel(vk_numbered_from, 28);
    }
    assert(vk_numbered_from(seq![KeyCode::Escape, KeyCode::Henkan, KeyCode::Muhenkan], 27)) by {
        reveal_with_fuel(vk_numbered_from, 28);
    }
    assert(vk_numbered_from(seq![KeyCode::Space, KeyCode::PageUp, KeyCode::PageDown, KeyCode::End, KeyCode::Home, KeyCode::Left, KeyCode::Up, KeyCode::Right, KeyCode::Down, KeyCode::Select], 32)) by {
        reveal_with_fuel(vk_numbered_from, 28);
    }
    assert(vk_numbered_from(seq![KeyCode::Execute, KeyCode::PrintScreen, KeyCode::Insert, KeyCode::Delete, KeyCode::Help], 43)) by {
        reveal_with_fuel(vk_numbered_from, 28);
    }
    assert(vk_numbered_from(seq![KeyCode::Num0, KeyCode::Num1, KeyCode::Num2, KeyCode::Num3, KeyCode::Num4, KeyCode::Num5, KeyCode::Num6, KeyCode::Num7, KeyCode::Num8, KeyCode::Num9], 48)) by {
        reveal_with_fuel(vk_numbered_from, 28);
    }
    assert(vk_numbered_from(seq![KeyCode::A, KeyCode::B, KeyCode::C, KeyCode::D, KeyCode::E, KeyCode::F, KeyCode::G, KeyCode::H, KeyCode::I, KeyCode::J, KeyCode::K, KeyCode::L, KeyCode::M, KeyCode::N, KeyCode::O, KeyCode::P, KeyCode::Q, KeyCode::R, KeyCode::S, KeyCode::T, KeyCode::U, KeyCode::V, KeyCode::W, KeyCode::X, KeyCode::Y, KeyCode::Z], 65)) by {
        reveal_with_fuel(vk_numbered_from, 28);
    }
    assert(vk_numbered_from(seq![KeyCode::LMeta, KeyCode::RMeta, KeyCode::Menu], 91)) by {
        reveal_with_fuel(vk_numbered_from, 28);
    }
    assert(vk_numbered_from(seq![KeyCode::Sleep, KeyCode::Numpad0, KeyCode::Numpad1, KeyCode::Numpad2, KeyCode::Numpad3, KeyCode::Numpad4, KeyCode::Numpad5, KeyCode::Numpad6, KeyCode::Numpad7, KeyCode::Numpad8, KeyCode::Numpad9, KeyCode::NumpadMultiply, KeyCode::NumpadAdd], 95)) by {
        reveal_with_fuel(vk_numbered_from, 28);
    }
    assert(vk_numbered_from(seq![KeyCode::NumpadSubtract, KeyCode::NumpadDecimal, KeyCode::NumpadDivide], 109)) by {
        reveal_with_fuel(vk_numbered_from, 28);
    }
    assert(vk_numbered_from(seq![KeyCode::F1, KeyCode::F2, KeyCode::F3, KeyCode::F4, KeyCode::F5, KeyCode::F6, KeyCode::F7, KeyCode::F8, KeyCode::F9, KeyCode::F10, KeyCode::F11, KeyCode::F12, KeyCode::F13, KeyCode::F14, KeyCode::F15, KeyCode::F16, KeyCode::F17, KeyCode::F18, KeyCode::F19, KeyCode::F20, KeyCode::F21, KeyCode::F22, KeyCode::F23, KeyCode::F24], 112)) by {
        reveal_with_fuel(vk_numbered_from, 28);
    }
    assert(vk_numbered_from(seq![KeyCode::NumLock, KeyCode::ScrollLock], 144)) by {
        reveal_with_fuel(vk_numbered_from, 28);
    }
    assert(vk_numbered_from(seq![KeyCode::LShift, KeyCode::RShift, KeyCode::LCtrl, KeyCode::RCtrl, KeyCode::LAlt, KeyCode::RAlt, KeyCode::BrowserBack, KeyCode::BrowserForward, KeyCode::BrowserRefresh, KeyCode::BrowserStop, KeyCode::BrowserSearch, KeyCode::BrowserFavorites, KeyCode::BrowserHome, KeyCode::Mute, KeyCode::VolumeDown, KeyCode::VolumeUp, KeyCode::MediaNext, KeyCode::MediaPrevious, KeyCode::MediaStop, KeyCode::MediaPlayPause, KeyCode::AppMail], 160)) by {
        reveal_with_fuel(vk_numbered_from, 28);
    }
    assert(vk_numbered_from(seq![KeyCode::AppMyComputer, KeyCode::AppCalculator], 182)) by {
        reveal_with_fuel(vk_numbered_from, 28);
    }
    assert(vk_numbered_from(seq![KeyCode::Semicolon, KeyCode::Equal, KeyCode::Comma, KeyCode::Minus, KeyCode::Period, KeyCode::Slash, KeyCode::Grave], 186)) by {
        reveal_with_fuel(vk_numbered_from, 28);
    }
    assert(vk_numbered_from(seq![KeyCode::LeftBracket, KeyCode::Backslash, KeyCode::RightBracket, KeyCode::Quote], 219)) by {
        reveal_with_fuel(vk_numbered_from, 28);
    }
    assert(vk_numbered_from(seq![KeyCode::Iso102nd], 226)) by {
        reveal_with_fuel(vk_numbered_from, 28);
    }
}

} // verus!
