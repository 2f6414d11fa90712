use keyrx_daemon::keys::KeyCode;
use keyrx_daemon::services::config_service::{ConfigError, ConfigService, MAX_CONFIG_SIZE};
use keyrx_daemon::services::device_service::{DeviceService, RegistryEntry};
use keyrx_daemon::services::settings_service::{default_port, validate_layout};
use keyrx_daemon::services::simulation_service::{simulated_key_code, BuiltinScenario};
use keyrx_daemon::services::{DaemonSettings, SettingsService, DEFAULT_PORT};
use std::collections::hash_map::DefaultHasher;
use std::hash::{Hash, Hasher};
use std::path::PathBuf;

#[test]
fn test_compute_hash() {
    let code = "let x = 42;";
    let hash1 = ConfigService::compute_hash(code);
    let hash2 = ConfigService::compute_hash(code);
    assert_eq!(hash1, hash2);

    let different_code = "let y = 43;";
    let hash3 = ConfigService::compute_hash(different_code);
    assert_ne!(hash1, hash3);
}

#[test]
fn hash_is_lower_case_hex_of_the_default_hasher() {
    let mut h = DefaultHasher::new();
    "abc".hash(&mut h);
    assert_eq!(ConfigService::compute_hash("abc"), format!("{:x}", h.finish()));
}

#[test]
fn test_config_too_large() {
    let large_code = "x".repeat(1024 * 1024 + 1);
    assert!(large_code.len() > 1024 * 1024);
    assert!(matches!(ConfigService::check_config_size(&large_code), Err(ConfigError::ConfigTooLarge)));
}

#[test]
fn config_size_limit_is_inclusive_and_counts_bytes() {
    assert_eq!(MAX_CONFIG_SIZE, 1024 * 1024);
    assert!(ConfigService::check_config_size(&"x".repeat(MAX_CONFIG_SIZE)).is_ok());
    assert!(ConfigService::check_config_size(&"é".repeat(MAX_CONFIG_SIZE / 2 + 1)).is_err());
}

#[test]
fn config_error_texts() {
    assert_eq!(ConfigError::ProfileNotFound("p".into()).to_string(), "Active profile not found: p");
    assert_eq!(ConfigError::FileNotFound.to_string(), "Configuration file not found");
    assert_eq!(ConfigError::ConfigTooLarge.to_string(), "Configuration too large (max 1MB)");
    assert_eq!(ConfigError::InvalidConfig("bad".into()).to_string(), "Invalid configuration: bad");
    assert_eq!(ConfigError::LayerNotFound("base".into()).to_string(), "Layer not found: base");
    assert_eq!(ConfigError::InvalidKeyName("Q1".into()).to_string(), "Invalid key name: Q1");
    assert_eq!(ConfigError::GeneratorError("g".into()).to_string(), "Generator error: g");
    let io: ConfigError = std::io::Error::new(std::io::ErrorKind::NotFound, "gone").into();
    assert_eq!(io.to_string(), "I/O error: gone");
}

#[test]
fn test_validate_layout_valid() {
    assert!(validate_layout("ANSI_104").is_ok());
    assert!(validate_layout("ISO_105").is_ok());
    assert!(validate_layout("JIS_109").is_ok());
    assert!(validate_layout("HHKB").is_ok());
    assert!(validate_layout("NUMPAD").is_ok());
}

#[test]
fn test_validate_layout_invalid() {
    assert!(validate_layout("INVALID_LAYOUT").is_err());
    assert!(validate_layout("").is_err());
    assert!(validate_layout(&"a".repeat(33)).is_err());
}

#[test]
fn layout_error_messages() {
    assert_eq!(validate_layout("").unwrap_err(), "Layout name cannot be empty");
    assert_eq!(validate_layout(&"a".repeat(33)).unwrap_err(), "Layout name too long: 33 chars (max 32)");
    assert_eq!(
        validate_layout("ansi_104").unwrap_err(),
        "Invalid layout 'ansi_104'. Must be one of: ANSI_104, ISO_105, JIS_109, HHKB, NUMPAD"
    );
}

#[test]
fn settings_defaults_and_updates() {
    let d = DaemonSettings::default();
    assert_eq!(d.port, DEFAULT_PORT);
    assert_eq!(default_port(), 9867);
    assert!(d.global_layout.is_none());

    let service = SettingsService::new(PathBuf::from("/tmp/cfg"));
    assert_eq!(service.settings_path(), &PathBuf::from("/tmp/cfg/settings.json"));
    assert_eq!(service.get_port(Err("unreadable".into())), DEFAULT_PORT);

    let updated = service.set_port(8080, Ok(DaemonSettings::default())).unwrap();
    assert_eq!(service.get_port(Ok(updated.clone())), 8080);
    assert_eq!(service.set_port(0, Ok(updated.clone())).unwrap_err(), "Port cannot be 0");
    assert_eq!(service.set_port(1, Err("read failed".into())).unwrap_err(), "read failed");

    let with_layout = service.set_global_layout(Some("ISO_105".into()), Ok(updated)).unwrap();
    assert_eq!(with_layout.port, 8080);
    assert_eq!(service.get_global_layout(Ok(with_layout.clone())).unwrap(), Some("ISO_105".to_string()));
    let cleared = service.set_global_layout(None, Ok(with_layout.clone())).unwrap();
    assert_eq!(cleared.global_layout, None);
    assert!(service.set_global_layout(Some("QWERTY".into()), Ok(with_layout)).is_err());
}

#[test]
fn connected_devices_take_registry_names_and_layouts() {
    let entry = RegistryEntry { name: "My board".into(), layout: Some("HHKB".into()) };
    let d = DeviceService::connected_device(
        "serial-1".into(),
        "USB Keyboard".into(),
        "/dev/input/event3".into(),
        Some("1".into()),
        Some(entry),
    );
    assert_eq!(d.name, "My board");
    assert_eq!(d.layout, Some("HHKB".to_string()));
    assert!(d.active);
    let d = DeviceService::connected_device("path-x".into(), "USB Keyboard".into(), "x".into(), None, None);
    assert_eq!(d.name, "USB Keyboard");
    assert_eq!(d.layout, None);
    let service = DeviceService::new(PathBuf::from("/tmp/cfg"));
    assert_eq!(service.registry_path(), &PathBuf::from("/tmp/cfg/devices.json"));
}

#[test]
fn simulated_key_names() {
    assert_eq!(simulated_key_code("A"), KeyCode::A);
    assert_eq!(simulated_key_code("Q"), KeyCode::Q);
    assert_eq!(simulated_key_code("Shift"), KeyCode::LShift);
    assert_eq!(simulated_key_code("Ctrl"), KeyCode::LCtrl);
    assert_eq!(simulated_key_code("Alt"), KeyCode::LAlt);
    assert_eq!(simulated_key_code("CapsLock"), KeyCode::CapsLock);
    assert_eq!(simulated_key_code("Space"), KeyCode::Space);
    assert_eq!(simulated_key_code("Enter"), KeyCode::Enter);
    assert_eq!(simulated_key_code("a"), KeyCode::A);
    assert_eq!(simulated_key_code("F1"), KeyCode::A);
    assert_eq!(simulated_key_code("Z"), KeyCode::Z);
}

#[test]
fn scenario_names() {
    assert_eq!(BuiltinScenario::from_name("tap-hold-under-threshold"), Some(BuiltinScenario::TapHoldUnderThreshold));
    assert_eq!(BuiltinScenario::from_name("tap-hold-over-threshold"), Some(BuiltinScenario::TapHoldOverThreshold));
    assert_eq!(BuiltinScenario::from_name("permissive-hold"), Some(BuiltinScenario::PermissiveHold));
    assert_eq!(BuiltinScenario::from_name("cross-device-modifiers"), Some(BuiltinScenario::CrossDeviceModifiers));
    assert_eq!(BuiltinScenario::from_name("macro-sequence"), Some(BuiltinScenario::MacroSequence));
    assert_eq!(BuiltinScenario::from_name("unknown-scenario"), None);
}
