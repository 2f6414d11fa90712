//! The daemon's platform-independent key model: key codes and key events.

use vstd::prelude::*;

verus! {

/// A physical key, independent of any platform's numbering.
#[derive(Debug, Clone, Copy, PartialEq, Eq, Hash, Structural)]
pub enum KeyCode {
    A,
    B,
    C,
    D,
    E,
    F,
    G,
    H,
    I,
    J,
    K,
    L,
    M,
    N,
    O,
    P,
    Q,
    R,
    S,
    T,
    U,
    V,
    W,
    X,
    Y,
    Z,
    Num0,
    Num1,
    Num2,
    Num3,
    Num4,
    Num5,
    Num6,
    Num7,
    Num8,
    Num9,
    F1,
    F2,
    F3,
    F4,
    F5,
    F6,
    F7,
    F8,
    F9,
    F10,
    F11,
    F12,
    F13,
    F14,
    F15,
    F16,
    F17,
    F18,
    F19,
    F20,
    F21,
    F22,
    F23,
    F24,
    LShift,
    RShift,
    LCtrl,
    RCtrl,
    LAlt,
    RAlt,
    LMeta,
    RMeta,
    Escape,
    Enter,
    Backspace,
    Tab,
    Space,
    CapsLock,
    NumLock,
    ScrollLock,
    PrintScreen,
    Pause,
    Insert,
    Delete,
    Home,
    End,
    PageUp,
    PageDown,
    Left,
    Right,
    Up,
    Down,
    LeftBracket,
    RightBracket,
    Backslash,
    Semicolon,
    Quote,
    Comma,
    Period,
    Slash,
    Grave,
    Minus,
    Equal,
    Numpad0,
    Numpad1,
    Numpad2,
    Numpad3,
    Numpad4,
    Numpad5,
    Numpad6,
    Numpad7,
    Numpad8,
    Numpad9,
    NumpadDivide,
    NumpadMultiply,
    NumpadSubtract,
    NumpadAdd,
    NumpadEnter,
    NumpadDecimal,
    Mute,
    VolumeDown,
    VolumeUp,
    MediaPlayPause,
    MediaStop,
    MediaPrevious,
    MediaNext,
    Power,
    Sleep,
    Wake,
    BrowserBack,
    BrowserForward,
    BrowserRefresh,
    BrowserStop,
    BrowserSearch,
    BrowserFavorites,
    BrowserHome,
    AppMail,
    AppCalculator,
    AppMyComputer,
    Menu,
    Help,
    Select,
    Execute,
    Undo,
    Redo,
    Cut,
    Copy,
    Paste,
    Find,
    Zenkaku,
    Katakana,
    Hiragana,
    Henkan,
    Muhenkan,
    Yen,
    Ro,
    KatakanaHiragana,
    Hangeul,
    Hanja,
    Iso102nd,
}

/// The name of a key, as its variant is written (its `Debug` text).
pub open spec fn key_name(k: KeyCode) -> Seq<char> {
    match k {
        KeyCode::A => "A"@,
        KeyCode::B => "B"@,
        KeyCode::C => "C"@,
        KeyCode::D => "D"@,
        KeyCode::E => "E"@,
        KeyCode::F => "F"@,
        KeyCode::G => "G"@,
        KeyCode::H => "H"@,
        KeyCode::I => "I"@,
        KeyCode::J => "J"@,
        KeyCode::K => "K"@,
        KeyCode::L => "L"@,
        KeyCode::M => "M"@,
        KeyCode::N => "N"@,
        KeyCode::O => "O"@,
        KeyCode::P => "P"@,
        KeyCode::Q => "Q"@,
        KeyCode::R => "R"@,
        KeyCode::S => "S"@,
        KeyCode::T => "T"@,
        KeyCode::U => "U"@,
        KeyCode::V => "V"@,
        KeyCode::W => "W"@,
        KeyCode::X => "X"@,
        KeyCode::Y => "Y"@,
        KeyCode::Z => "Z"@,
        KeyCode::Num0 => "Num0"@,
        KeyCode::Num1 => "Num1"@,
        KeyCode::Num2 => "Num2"@,
        KeyCode::Num3 => "Num3"@,
        KeyCode::Num4 => "Num4"@,
        KeyCode::Num5 => "Num5"@,
        KeyCode::Num6 => "Num6"@,
        KeyCode::Num7 => "Num7"@,
        KeyCode::Num8 => "Num8"@,
        KeyCode::Num9 => "Num9"@,
        KeyCode::F1 => "F1"@,
        KeyCode::F2 => "F2"@,
        KeyCode::F3 => "F3"@,
        KeyCode::F4 => "F4"@,
        KeyCode::F5 => "F5"@,
        KeyCode::F6 => "F6"@,
        KeyCode::F7 => "F7"@,
        KeyCode::F8 => "F8"@,
        KeyCode::F9 => "F9"@,
        KeyCode::F10 => "F10"@,
        KeyCode::F11 => "F11"@,
        KeyCode::F12 => "F12"@,
        KeyCode::F13 => "F13"@,
        KeyCode::F14 => "F14"@,
        KeyCode::F15 => "F15"@,
        KeyCode::F16 => "F16"@,
        KeyCode::F17 => "F17"@,
        KeyCode::F18 => "F18"@,
        KeyCode::F19 => "F19"@,
        KeyCode::F20 => "F20"@,
        KeyCode::F21 => "F21"@,
        KeyCode::F22 => "F22"@,
        KeyCode::F23 => "F23"@,
        KeyCode::F24 => "F24"@,
        KeyCode::LShift => "LShift"@,
        KeyCode::RShift => "RShift"@,
        KeyCode::LCtrl => "LCtrl"@,
        KeyCode::RCtrl => "RCtrl"@,
        KeyCode::LAlt => "LAlt"@,
        KeyCode::RAlt => "RAlt"@,
        KeyCode::LMeta => "LMeta"@,
        KeyCode::RMeta => "RMeta"@,
        KeyCode::Escape => "Escape"@,
        KeyCode::Enter => "Enter"@,
        KeyCode::Backspace => "Backspace"@,
        KeyCode::Tab => "Tab"@,
        KeyCode::Space => "Space"@,
        KeyCode::CapsLock => "CapsLock"@,
        KeyCode::NumLock => "NumLock"@,
        KeyCode::ScrollLock => "ScrollLock"@,
        KeyCode::PrintScreen => "PrintScreen"@,
        KeyCode::Pause => "Pause"@,
        KeyCode::Insert => "Insert"@,
        KeyCode::Delete => "Delete"@,
        KeyCode::Home => "Home"@,
        KeyCode::End => "End"@,
        KeyCode::PageUp => "PageUp"@,
        KeyCode::PageDown => "PageDown"@,
        KeyCode::Left => "Left"@,
        KeyCode::Right => "Right"@,
        KeyCode::Up => "Up"@,
        KeyCode::Down => "Down"@,
        KeyCode::LeftBracket => "LeftBracket"@,
        KeyCode::RightBracket => "RightBracket"@,
        KeyCode::Backslash => "Backslash"@,
        KeyCode::Semicolon => "Semicolon"@,
        KeyCode::Quote => "Quote"@,
        KeyCode::Comma => "Comma"@,
        KeyCode::Period => "Period"@,
        KeyCode::Slash => "Slash"@,
        KeyCode::Grave => "Grave"@,
        KeyCode::Minus => "Minus"@,
        KeyCode::Equal => "Equal"@,
        KeyCode::Numpad0 => "Numpad0"@,
        KeyCode::Numpad1 => "Numpad1"@,
        KeyCode::Numpad2 => "Numpad2"@,
        KeyCode::Numpad3 => "Numpad3"@,
        KeyCode::Numpad4 => "Numpad4"@,
        KeyCode::Numpad5 => "Numpad5"@,
        KeyCode::Numpad6 => "Numpad6"@,
        KeyCode::Numpad7 => "Numpad7"@,
        KeyCode::Numpad8 => "Numpad8"@,
        KeyCode::Numpad9 => "Numpad9"@,
        KeyCode::NumpadDivide => "NumpadDivide"@,
        KeyCode::NumpadMultiply => "NumpadMultiply"@,
        KeyCode::NumpadSubtract => "NumpadSubtract"@,
        KeyCode::NumpadAdd => "NumpadAdd"@,
        KeyCode::NumpadEnter => "NumpadEnter"@,
        KeyCode::NumpadDecimal => "NumpadDecimal"@,
        KeyCode::Mute => "Mute"@,
        KeyCode::VolumeDown => "VolumeDown"@,
        KeyCode::VolumeUp => "VolumeUp"@,
        KeyCode::MediaPlayPause => "MediaPlayPause"@,
        KeyCode::MediaStop => "MediaStop"@,
        KeyCode::MediaPrevious => "MediaPrevious"@,
        KeyCode::MediaNext => "MediaNext"@,
        KeyCode::Power => "Power"@,
        KeyCode::Sleep => "Sleep"@,
        KeyCode::Wake => "Wake"@,
        KeyCode::BrowserBack => "BrowserBack"@,
        KeyCode::BrowserForward => "BrowserForward"@,
        KeyCode::BrowserRefresh => "BrowserRefresh"@,
        KeyCode::BrowserStop => "BrowserStop"@,
        KeyCode::BrowserSearch => "BrowserSearch"@,
        KeyCode::BrowserFavorites => "BrowserFavorites"@,
        KeyCode::BrowserHome => "BrowserHome"@,
        KeyCode::AppMail => "AppMail"@,
        KeyCode::AppCalculator => "AppCalculator"@,
        KeyCode::AppMyComputer => "AppMyComputer"@,
        KeyCode::Menu => "Menu"@,
        KeyCode::Help => "Help"@,
        KeyCode::Select => "Select"@,
        KeyCode::Execute => "Execute"@,
        KeyCode::Undo => "Undo"@,
        KeyCode::Redo => "Redo"@,
        KeyCode::Cut => "Cut"@,
        KeyCode::Copy => "Copy"@,
        KeyCode::Paste => "Paste"@,
        KeyCode::Find => "Find"@,
        KeyCode::Zenkaku => "Zenkaku"@,
        KeyCode::Katakana => "Katakana"@,
        KeyCode::Hiragana => "Hiragana"@,
        KeyCode::Henkan => "Henkan"@,
        KeyCode::Muhenkan => "Muhenkan"@,
        KeyCode::Yen => "Yen"@,
        KeyCode::Ro => "Ro"@,
        KeyCode::KatakanaHiragana => "KatakanaHiragana"@,
        KeyCode::Hangeul => "Hangeul"@,
        KeyCode::Hanja => "Hanja"@,
        KeyCode::Iso102nd => "Iso102nd"@,
    }
}

impl KeyCode {
    /// The name of the key, as its variant is written.
    pub fn name(&self) -> (r: &'static str)
        ensures
            r@ == key_name(*self),
    {
        match self {
        KeyCode::A => "A",
        KeyCode::B => "B",
        KeyCode::C => "C",
        KeyCode::D => "D",
        KeyCode::E => "E",
        KeyCode::F => "F",
        KeyCode::G => "G",
        KeyCode::H => "H",
        KeyCode::I => "I",
        KeyCode::J => "J",
        KeyCode::K => "K",
        KeyCode::L => "L",
        KeyCode::M => "M",
        KeyCode::N => "N",
        KeyCode::O => "O",
        KeyCode::P => "P",
        KeyCode::Q => "Q",
        KeyCode::R => "R",
        KeyCode::S => "S",
        KeyCode::T => "T",
        KeyCode::U => "U",
        KeyCode::V => "V",
        KeyCode::W => "W",
        KeyCode::X => "X",
        KeyCode::Y => "Y",
        KeyCode::Z => "Z",
        KeyCode::Num0 => "Num0",
        KeyCode::Num1 => "Num1",
        KeyCode::Num2 => "Num2",
        KeyCode::Num3 => "Num3",
        KeyCode::Num4 => "Num4",
        KeyCode::Num5 => "Num5",
        KeyCode::Num6 => "Num6",
        KeyCode::Num7 => "Num7",
        KeyCode::Num8 => "Num8",
        KeyCode::Num9 => "Num9",
        KeyCode::F1 => "F1",
        KeyCode::F2 => "F2",
        KeyCode::F3 => "F3",
        KeyCode::F4 => "F4",
        KeyCode::F5 => "F5",
        KeyCode::F6 => "F6",
        KeyCode::F7 => "F7",
        KeyCode::F8 => "F8",
        KeyCode::F9 => "F9",
        KeyCode::F10 => "F10",
        KeyCode::F11 => "F11",
        KeyCode::F12 => "F12",
        KeyCode::F13 => "F13",
        KeyCode::F14 => "F14",
        KeyCode::F15 => "F15",
        KeyCode::F16 => "F16",
        KeyCode::F17 => "F17",
        KeyCode::F18 => "F18",
        KeyCode::F19 => "F19",
        KeyCode::F20 => "F20",
        KeyCode::F21 => "F21",
        KeyCode::F22 => "F22",
        KeyCode::F23 => "F23",
        KeyCode::F24 => "F24",
        KeyCode::LShift => "LShift",
        KeyCode::RShift => "RShift",
        KeyCode::LCtrl => "LCtrl",
        KeyCode::RCtrl => "RCtrl",
        KeyCode::LAlt => "LAlt",
        KeyCode::RAlt => "RAlt",
        KeyCode::LMeta => "LMeta",
        KeyCode::RMeta => "RMeta",
        KeyCode::Escape => "Escape",
        KeyCode::Enter => "Enter",
        KeyCode::Backspace => "Backspace",
        KeyCode::Tab => "Tab",
        KeyCode::Space => "Space",
        KeyCode::CapsLock => "CapsLock",
        KeyCode::NumLock => "NumLock",
        KeyCode::ScrollLock => "ScrollLock",
        KeyCode::PrintScreen => "PrintScreen",
        KeyCode::Pause => "Pause",
        KeyCode::Insert => "Insert",
        KeyCode::Delete => "Delete",
        KeyCode::Home => "Home",
        KeyCode::End => "End",
        KeyCode::PageUp => "PageUp",
        KeyCode::PageDown => "PageDown",
        KeyCode::Left => "Left",
        KeyCode::Right => "Right",
        KeyCode::Up => "Up",
        KeyCode::Down => "Down",
        KeyCode::LeftBracket => "LeftBracket",
        KeyCode::RightBracket => "RightBracket",
        KeyCode::Backslash => "Backslash",
        KeyCode::Semicolon => "Semicolon",
        KeyCode::Quote => "Quote",
        KeyCode::Comma => "Comma",
        KeyCode::Period => "Period",
        KeyCode::Slash => "Slash",
        KeyCode::Grave => "Grave",
        KeyCode::Minus => "Minus",
        KeyCode::Equal => "Equal",
        KeyCode::Numpad0 => "Numpad0",
        KeyCode::Numpad1 => "Numpad1",
        KeyCode::Numpad2 => "Numpad2",
        KeyCode::Numpad3 => "Numpad3",
        KeyCode::Numpad4 => "Numpad4",
        KeyCode::Numpad5 => "Numpad5",
        KeyCode::Numpad6 => "Numpad6",
        KeyCode::Numpad7 => "Numpad7",
        KeyCode::Numpad8 => "Numpad8",
        KeyCode::Numpad9 => "Numpad9",
        KeyCode::NumpadDivide => "NumpadDivide",
        KeyCode::NumpadMultiply => "NumpadMultiply",
        KeyCode::NumpadSubtract => "NumpadSubtract",
        KeyCode::NumpadAdd => "NumpadAdd",
        KeyCode::NumpadEnter => "NumpadEnter",
        KeyCode::NumpadDecimal => "NumpadDecimal",
        KeyCode::Mute => "Mute",
        KeyCode::VolumeDown => "VolumeDown",
        KeyCode::VolumeUp => "VolumeUp",
        KeyCode::MediaPlayPause => "MediaPlayPause",
        KeyCode::MediaStop => "MediaStop",
        KeyCode::MediaPrevious => "MediaPrevious",
        KeyCode::MediaNext => "MediaNext",
        KeyCode::Power => "Power",
        KeyCode::Sleep => "Sleep",
        KeyCode::Wake => "Wake",
        KeyCode::BrowserBack => "BrowserBack",
        KeyCode::BrowserForward => "BrowserForward",
        KeyCode::BrowserRefresh => "BrowserRefresh",
        KeyCode::BrowserStop => "BrowserStop",
        KeyCode::BrowserSearch => "BrowserSearch",
        KeyCode::BrowserFavorites => "BrowserFavorites",
        KeyCode::BrowserHome => "BrowserHome",
        KeyCode::AppMail => "AppMail",
        KeyCode::AppCalculator => "AppCalculator",
        KeyCode::AppMyComputer => "AppMyComputer",
        KeyCode::Menu => "Menu",
        KeyCode::Help => "Help",
        KeyCode::Select => "Select",
        KeyCode::Execute => "Execute",
        KeyCode::Undo => "Undo",
        KeyCode::Redo => "Redo",
        KeyCode::Cut => "Cut",
        KeyCode::Copy => "Copy",
        KeyCode::Paste => "Paste",
        KeyCode::Find => "Find",
        KeyCode::Zenkaku => "Zenkaku",
        KeyCode::Katakana => "Katakana",
        KeyCode::Hiragana => "Hiragana",
        KeyCode::Henkan => "Henkan",
        KeyCode::Muhenkan => "Muhenkan",
        KeyCode::Yen => "Yen",
        KeyCode::Ro => "Ro",
        KeyCode::KatakanaHiragana => "KatakanaHiragana",
        KeyCode::Hangeul => "Hangeul",
        KeyCode::Hanja => "Hanja",
        KeyCode::Iso102nd => "Iso102nd",
        }
    }
}

/// A key transition: a key going down or coming up.
#[derive(Debug, Clone, Copy, PartialEq, Eq, Hash, Structural)]
pub enum KeyEvent {
    /// The key was pressed.
    Press(KeyCode),
    /// The key was released.
    Release(KeyCode),
}

/// The key an event is about.
pub open spec fn event_key(e: KeyEvent) -> KeyCode {
    match e {
        KeyEvent::Press(k) => k,
        KeyEvent::Release(k) => k,
    }
}

impl KeyEvent {
    /// A press of `keycode`.
    pub fn press(keycode: KeyCode) -> (r: Self)
        ensures
            r == KeyEvent::Press(keycode),
    {
        KeyEvent::Press(keycode)
    }

    /// A release of `keycode`.
    pub fn release(keycode: KeyCode) -> (r: Self)
        ensures
            r == KeyEvent::Release(keycode),
    {
        KeyEvent::Release(keycode)
    }

    /// The key this event is about.
    pub fn keycode(&self) -> (r: KeyCode)
        ensures
            r == event_key(*self),
    {
        match self {
            KeyEvent::Press(k) => *k,
            KeyEvent::Release(k) => *k,
        }
    }

    /// Whether this is a press.
    pub fn is_press(&self) -> (r: bool)
        ensures
            r == (*self is Press),
    {
        match self {
            KeyEvent::Press(_) => true,
            KeyEvent::Release(_) => false,
        }
    }

    /// Whether this is a release.
    pub fn is_release(&self) -> (r: bool)
        ensures
            r == (*self is Release),
    {
        match self {
            KeyEvent::Press(_) => false,
            KeyEvent::Release(_) => true,
        }
    }
}

} // verus!
