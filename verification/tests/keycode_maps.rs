use evdev::Key;
use keyrx_daemon::keys::KeyCode;
use keyrx_daemon::platform::linux::{evdev_to_keycode, keycode_to_evdev};
use keyrx_daemon::platform::macos::keycode_map::{cgkeycode_to_keyrx, keyrx_to_cgkeycode};
use keyrx_daemon::platform::windows::keycode::{is_extended_key, keycode_to_vk, vk_to_keycode};

#[test]
fn keycode_map_test_letter_keys_mapping() {
    assert_eq!(evdev_to_keycode(Key::KEY_A.code()), Some(KeyCode::A));
    assert_eq!(evdev_to_keycode(Key::KEY_Z.code()), Some(KeyCode::Z));
    assert_eq!(evdev_to_keycode(Key::KEY_M.code()), Some(KeyCode::M));

    assert_eq!(keycode_to_evdev(KeyCode::A), Key::KEY_A.code());
    assert_eq!(keycode_to_evdev(KeyCode::Z), Key::KEY_Z.code());
}

#[test]
fn keycode_map_test_number_keys_mapping() {
    assert_eq!(evdev_to_keycode(Key::KEY_1.code()), Some(KeyCode::Num1));
    assert_eq!(evdev_to_keycode(Key::KEY_0.code()), Some(KeyCode::Num0));
    assert_eq!(evdev_to_keycode(Key::KEY_5.code()), Some(KeyCode::Num5));

    assert_eq!(keycode_to_evdev(KeyCode::Num0), Key::KEY_0.code());
    assert_eq!(keycode_to_evdev(KeyCode::Num9), Key::KEY_9.code());
}

#[test]
fn keycode_map_test_function_keys_mapping() {
    assert_eq!(evdev_to_keycode(Key::KEY_F1.code()), Some(KeyCode::F1));
    assert_eq!(evdev_to_keycode(Key::KEY_F12.code()), Some(KeyCode::F12));
    assert_eq!(evdev_to_keycode(Key::KEY_F24.code()), Some(KeyCode::F24));

    assert_eq!(keycode_to_evdev(KeyCode::F1), Key::KEY_F1.code());
    assert_eq!(keycode_to_evdev(KeyCode::F12), Key::KEY_F12.code());
}

#[test]
fn keycode_map_test_modifier_keys_mapping() {
    assert_eq!(evdev_to_keycode(Key::KEY_LEFTSHIFT.code()), Some(KeyCode::LShift));
    assert_eq!(evdev_to_keycode(Key::KEY_RIGHTSHIFT.code()), Some(KeyCode::RShift));
    assert_eq!(evdev_to_keycode(Key::KEY_LEFTCTRL.code()), Some(KeyCode::LCtrl));
    assert_eq!(evdev_to_keycode(Key::KEY_RIGHTCTRL.code()), Some(KeyCode::RCtrl));
    assert_eq!(evdev_to_keycode(Key::KEY_LEFTALT.code()), Some(KeyCode::LAlt));
    assert_eq!(evdev_to_keycode(Key::KEY_RIGHTALT.code()), Some(KeyCode::RAlt));
    assert_eq!(evdev_to_keycode(Key::KEY_LEFTMETA.code()), Some(KeyCode::LMeta));
    assert_eq!(evdev_to_keycode(Key::KEY_RIGHTMETA.code()), Some(KeyCode::RMeta));

    assert_eq!(keycode_to_evdev(KeyCode::LShift), Key::KEY_LEFTSHIFT.code());
    assert_eq!(keycode_to_evdev(KeyCode::RAlt), Key::KEY_RIGHTALT.code());
}

#[test]
fn keycode_map_test_special_keys_mapping() {
    assert_eq!(evdev_to_keycode(Key::KEY_ESC.code()), Some(KeyCode::Escape));
    assert_eq!(evdev_to_keycode(Key::KEY_ENTER.code()), Some(KeyCode::Enter));
    assert_eq!(evdev_to_keycode(Key::KEY_BACKSPACE.code()), Some(KeyCode::Backspace));
    assert_eq!(evdev_to_keycode(Key::KEY_TAB.code()), Some(KeyCode::Tab));
    assert_eq!(evdev_to_keycode(Key::KEY_SPACE.code()), Some(KeyCode::Space));

    assert_eq!(keycode_to_evdev(KeyCode::Escape), Key::KEY_ESC.code());
    assert_eq!(keycode_to_evdev(KeyCode::Enter), Key::KEY_ENTER.code());
}

#[test]
fn keycode_map_test_arrow_keys_mapping() {
    assert_eq!(evdev_to_keycode(Key::KEY_LEFT.code()), Some(KeyCode::Left));
    assert_eq!(evdev_to_keycode(Key::KEY_RIGHT.code()), Some(KeyCode::Right));
    assert_eq!(evdev_to_keycode(Key::KEY_UP.code()), Some(KeyCode::Up));
    assert_eq!(evdev_to_keycode(Key::KEY_DOWN.code()), Some(KeyCode::Down));

    assert_eq!(keycode_to_evdev(KeyCode::Left), Key::KEY_LEFT.code());
    assert_eq!(keycode_to_evdev(KeyCode::Down), Key::KEY_DOWN.code());
}

#[test]
fn keycode_map_test_numpad_keys_mapping() {
    assert_eq!(evdev_to_keycode(Key::KEY_KP0.code()), Some(KeyCode::Numpad0));
    assert_eq!(evdev_to_keycode(Key::KEY_KP9.code()), Some(KeyCode::Numpad9));
    assert_eq!(evdev_to_keycode(Key::KEY_KPENTER.code()), Some(KeyCode::NumpadEnter));

    assert_eq!(keycode_to_evdev(KeyCode::Numpad0), Key::KEY_KP0.code());
    assert_eq!(keycode_to_evdev(KeyCode::NumpadEnter), Key::KEY_KPENTER.code());
}

#[test]
fn test_unknown_key_returns_none() {
    assert_eq!(evdev_to_keycode(0xFFFF), None);
}

#[test]
fn test_all_keycodes_roundtrip() {
    let all_keycodes = [
        KeyCode::A, KeyCode::B, KeyCode::C, KeyCode::D, KeyCode::E, KeyCode::F, KeyCode::G,
        KeyCode::H, KeyCode::I, KeyCode::J, KeyCode::K, KeyCode::L, KeyCode::M, KeyCode::N,
        KeyCode::O, KeyCode::P, KeyCode::Q, KeyCode::R, KeyCode::S, KeyCode::T, KeyCode::U,
        KeyCode::V, KeyCode::W, KeyCode::X, KeyCode::Y, KeyCode::Z, KeyCode::Num0, KeyCode::Num1,
        KeyCode::Num2, KeyCode::Num3, KeyCode::Num4, KeyCode::Num5, KeyCode::Num6, KeyCode::Num7,
        KeyCode::Num8, KeyCode::Num9, KeyCode::F1, KeyCode::F2, KeyCode::F3, KeyCode::F4,
        KeyCode::F5, KeyCode::F6, KeyCode::F7, KeyCode::F8, KeyCode::F9, KeyCode::F10,
        KeyCode::F11, KeyCode::F12, KeyCode::Escape, KeyCode::Enter, KeyCode::Backspace,
        KeyCode::Tab, KeyCode::Space, KeyCode::LShift, KeyCode::RShift, KeyCode::LCtrl,
        KeyCode::RCtrl, KeyCode::LAlt, KeyCode::RAlt, KeyCode::LMeta, KeyCode::RMeta,
        KeyCode::Left, KeyCode::Right, KeyCode::Up, KeyCode::Down,
    ];

    for keycode in all_keycodes {
        let evdev_code = keycode_to_evdev(keycode);
        let result = evdev_to_keycode(evdev_code);
        assert_eq!(result, Some(keycode), "Round-trip failed for {:?}", keycode);
    }
}

#[test]
fn every_mapped_evdev_code_round_trips() {
    let mut mapped = 0;
    for code in 0..=u16::MAX {
        if let Some(k) = evdev_to_keycode(code) {
            assert_eq!(keycode_to_evdev(k), code);
            mapped += 1;
        }
    }
    assert!(mapped > 100);
}

#[test]
fn test_cgkeycode_letter_mappings() {
    assert_eq!(cgkeycode_to_keyrx(0x00), Some(KeyCode::A));
    assert_eq!(cgkeycode_to_keyrx(0x0B), Some(KeyCode::B));
    assert_eq!(cgkeycode_to_keyrx(0x08), Some(KeyCode::C));
    assert_eq!(cgkeycode_to_keyrx(0x06), Some(KeyCode::Z));
}

#[test]
fn test_cgkeycode_number_mappings() {
    assert_eq!(cgkeycode_to_keyrx(0x12), Some(KeyCode::Num1));
    assert_eq!(cgkeycode_to_keyrx(0x13), Some(KeyCode::Num2));
    assert_eq!(cgkeycode_to_keyrx(0x1D), Some(KeyCode::Num0));
}

#[test]
fn test_cgkeycode_function_key_mappings() {
    assert_eq!(cgkeycode_to_keyrx(0x7A), Some(KeyCode::F1));
    assert_eq!(cgkeycode_to_keyrx(0x78), Some(KeyCode::F2));
    assert_eq!(cgkeycode_to_keyrx(0x6F), Some(KeyCode::F12));
}

#[test]
fn test_cgkeycode_special_key_mappings() {
    assert_eq!(cgkeycode_to_keyrx(0x35), Some(KeyCode::Escape));
    assert_eq!(cgkeycode_to_keyrx(0x24), Some(KeyCode::Enter));
    assert_eq!(cgkeycode_to_keyrx(0x33), Some(KeyCode::Backspace));
    assert_eq!(cgkeycode_to_keyrx(0x31), Some(KeyCode::Space));
}

#[test]
fn test_cgkeycode_modifier_mappings() {
    assert_eq!(cgkeycode_to_keyrx(0x38), Some(KeyCode::LShift));
    assert_eq!(cgkeycode_to_keyrx(0x3C), Some(KeyCode::RShift));
    assert_eq!(cgkeycode_to_keyrx(0x37), Some(KeyCode::LMeta));
    assert_eq!(cgkeycode_to_keyrx(0x3B), Some(KeyCode::LCtrl));
}

#[test]
fn test_keyrx_to_cgkeycode_bidirectional() {
    assert_eq!(keyrx_to_cgkeycode(KeyCode::A), Some(0x00));
    assert_eq!(keyrx_to_cgkeycode(KeyCode::Z), Some(0x06));
    assert_eq!(keyrx_to_cgkeycode(KeyCode::Num1), Some(0x12));
    assert_eq!(keyrx_to_cgkeycode(KeyCode::F1), Some(0x7A));
    assert_eq!(keyrx_to_cgkeycode(KeyCode::Escape), Some(0x35));
}

#[test]
fn test_bidirectional_consistency() {
    for cgcode in 0..=u16::MAX {
        if let Some(keycode) = cgkeycode_to_keyrx(cgcode) {
            assert_eq!(keyrx_to_cgkeycode(keycode), Some(cgcode));
        }
    }
}

#[test]
fn test_unmapped_cgkeycode_returns_none() {
    assert_eq!(cgkeycode_to_keyrx(0xFFFF), None);
}

#[test]
fn test_all_cgkeycodes_are_unique() {
    let mut codes = std::collections::HashSet::new();
    for cgcode in 0..=u16::MAX {
        if let Some(keycode) = cgkeycode_to_keyrx(cgcode) {
            assert!(codes.insert(keycode), "Duplicate mapping for {:?}", keycode);
        }
    }
    assert!(!codes.is_empty());
}

#[test]
fn test_vk_to_keycode() {
    assert_eq!(vk_to_keycode(0x41), Some(KeyCode::A));
    assert_eq!(vk_to_keycode(0x0D), Some(KeyCode::Enter));
    assert_eq!(vk_to_keycode(0xFFFF), None);
}

#[test]
fn test_keycode_to_vk() {
    assert_eq!(keycode_to_vk(KeyCode::A), Some(0x41));
    assert_eq!(keycode_to_vk(KeyCode::Enter), Some(0x0D));
}

#[test]
fn test_roundtrip() {
    for vk in 0..=u16::MAX {
        if let Some(keycode) = vk_to_keycode(vk) {
            let vk2 = keycode_to_vk(keycode).unwrap();
            let keycode2 = vk_to_keycode(vk2).unwrap();
            assert_eq!(keycode, keycode2);
        }
    }
}

#[test]
fn test_vk_mapping_completeness() {
    assert_eq!(vk_to_keycode(0x41), Some(KeyCode::A));
    assert_eq!(vk_to_keycode(0x20), Some(KeyCode::Space));
    assert_eq!(vk_to_keycode(0xA0), Some(KeyCode::LShift));

    assert_eq!(keycode_to_vk(KeyCode::A), Some(0x41));
    assert_eq!(keycode_to_vk(KeyCode::Space), Some(0x20));
    assert_eq!(keycode_to_vk(KeyCode::LShift), Some(0xA0));
}

#[test]
fn test_unmapped_vk() {
    assert_eq!(vk_to_keycode(0x07), None);
}

#[test]
fn test_extended_keys() {
    assert!(is_extended_key(0xA5));
    assert!(is_extended_key(0xA3));
    assert!(is_extended_key(0x25));
    assert!(!is_extended_key(0x41));
}
