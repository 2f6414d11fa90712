//! Daemon settings: the default keyboard layout for new devices and the
//! web server port, with the rules that govern changing them.
//!
//! Reading and writing the settings file is the caller's part: the
//! service's methods take what was read and give back what is to be
//! written.

use vstd::prelude::*;
use crate::text::{dec, owned, str_eq, push_radix};
use super::{join_path, joined};
use vstd::utf8::encode_utf8;

verus! {

/// Default web server port.
pub const DEFAULT_PORT: u16 = 9867;

/// Longest accepted layout name, in bytes.
pub const MAX_LAYOUT_NAME_LEN: usize = 32;

/// Global daemon settings.
#[derive(Debug, Clone)]
pub struct DaemonSettings {
    /// Default keyboard layout for newly detected devices.
    pub global_layout: Option<String>,
    /// Web server port.
    pub port: u16,
}

/// The port used when the settings do not give one.
pub fn default_port() -> (r: u16)
    ensures
        r == DEFAULT_PORT,
{
    DEFAULT_PORT
}

impl Default for DaemonSettings {
    fn default() -> (r: Self)
        ensures
            r.global_layout is None,
            r.port == DEFAULT_PORT,
    {
        DaemonSettings { global_layout: None, port: DEFAULT_PORT }
    }
}

/// The layout presets a device can use.
pub open spec fn is_supported_layout(name: Seq<char>) -> bool {
    ||| name == "ANSI_104"@
    ||| name == "ISO_105"@
    ||| name == "JIS_109"@
    ||| name == "HHKB"@
    ||| name == "NUMPAD"@
}

/// The error a layout name is refused with, if any: an empty name, a name
/// longer than 32 bytes, or a name that is not a supported preset, checked
/// in that order; the length counts the bytes of the name's UTF-8
/// encoding.
pub open spec fn layout_error(layout: Seq<char>) -> Option<Seq<char>> {
    if layout.len() == 0 {
        Some("Layout name cannot be empty"@)
    } else if encode_utf8(layout).len() > 32 {
        Some("Layout name too long: "@ + dec(encode_utf8(layout).len()) + " chars (max 32)"@)
    } else if !is_supported_layout(layout) {
        Some("Invalid layout '"@ + layout
            + "'. Must be one of: ANSI_104, ISO_105, JIS_109, HHKB, NUMPAD"@)
    } else {
        None
    }
}

/// Validates a layout name against the supported presets.
pub fn validate_layout(layout: &str) -> (r: Result<(), String>)
    ensures
        r is Ok <==> layout_error(layout@) is None,
        r matches Err(m) ==> layout_error(layout@) == Some(m@),
{
    if layout.is_empty() {
        return Err(owned("Layout name cannot be empty"));
    }
    let n = layout.as_bytes().len();
    if n > MAX_LAYOUT_NAME_LEN {
        let mut m = owned("Layout name too long: ");
        push_radix(&mut m, n as u64, 10);
        m.append(" chars (max 32)");
        return Err(m);
    }
    if str_eq(layout, "ANSI_104") || str_eq(layout, "ISO_105") || str_eq(layout, "JIS_109")
        || str_eq(layout, "HHKB") || str_eq(layout, "NUMPAD") {
        Ok(())
    } else {
        let mut m = owned("Invalid layout '");
        m.append(layout);
        m.append("'. Must be one of: ANSI_104, ISO_105, JIS_109, HHKB, NUMPAD");
        Err(m)
    }
}

/// The settings with the global layout replaced.
pub open spec fn with_layout(s: DaemonSettings, layout: Option<String>) -> DaemonSettings {
    DaemonSettings { global_layout: layout, ..s }
}

/// The settings with the port replaced.
pub open spec fn with_port(s: DaemonSettings, port: u16) -> DaemonSettings {
    DaemonSettings { port, ..s }
}

/// Settings management: where the settings file lives and how its content
/// changes.
pub struct SettingsService {
    settings_path: std::path::PathBuf,
}

impl SettingsService {
    /// Creates a service whose settings file is `settings.json` in the
    /// given configuration directory.
    pub fn new(config_dir: std::path::PathBuf) -> (r: Self)
        ensures
            r.path() == joined(config_dir, "settings.json"@),
    {
        let settings_path = join_path(&config_dir, "settings.json");
        SettingsService { settings_path }
    }

    /// The path of the settings file this service was created with.
    pub closed spec fn path(&self) -> std::path::PathBuf {
        self.settings_path
    }

    /// The path of the settings file.
    pub fn settings_path(&self) -> (r: &std::path::PathBuf)
        ensures
            *r == self.path(),
    {
        &self.settings_path
    }

    /// The global layout recorded in the settings that were read.
    pub fn get_global_layout(&self, loaded: Result<DaemonSettings, String>) -> (r: Result<
        Option<String>,
        String,
    >)
        ensures
            loaded matches Ok(s) ==> r == Ok::<Option<String>, String>(s.global_layout),
            loaded matches Err(e) ==> r == Err::<Option<String>, String>(e),
    {
        match loaded {
            Ok(s) => Ok(s.global_layout),
            Err(e) => Err(e),
        }
    }

    /// The settings to write after setting the global layout: a given
    /// layout must pass [`validate_layout`] first; then the settings that
    /// were read get the new layout.
    pub fn set_global_layout(&self, layout: Option<String>, loaded: Result<DaemonSettings, String>) -> (r:
        Result<DaemonSettings, String>)
        ensures
            layout matches Some(l) ==> (layout_error(l@) is Some ==> (r matches Err(m)
                && layout_error(l@) == Some(m@))),
            (layout matches Some(l) ==> layout_error(l@) is None) ==> match loaded {
                Ok(s) => r == Ok::<DaemonSettings, String>(with_layout(s, layout)),
                Err(e) => r == Err::<DaemonSettings, String>(e),
            },
    {
        if let Some(l) = &layout {
            if let Err(m) = validate_layout(l.as_str()) {
                return Err(m);
            }
        }
        match loaded {
            Ok(s) => Ok(DaemonSettings { global_layout: layout, port: s.port }),
            Err(e) => Err(e),
        }
    }

    /// The port recorded in the settings that were read, or the default
    /// port when they could not be read.
    pub fn get_port(&self, loaded: Result<DaemonSettings, String>) -> (r: u16)
        ensures
            r == match loaded {
                Ok(s) => s.port,
                Err(_) => DEFAULT_PORT,
            },
    {
        match loaded {
            Ok(s) => s.port,
            Err(_) => DEFAULT_PORT,
        }
    }

    /// The settings to write after setting the port: port 0 is refused;
    /// otherwise the settings that were read get the new port.
    pub fn set_port(&self, port: u16, loaded: Result<DaemonSettings, String>) -> (r: Result<
        DaemonSettings,
        String,
    >)
        ensures
            port == 0 ==> (r matches Err(m) && m@ == "Port cannot be 0"@),
            port != 0 ==> match loaded {
                Ok(s) => r == Ok::<DaemonSettings, String>(with_port(s, port)),
                Err(e) => r == Err::<DaemonSettings, String>(e),
            },
    {
        if port == 0 {
            return Err(owned("Port cannot be 0"));
        }
        match loaded {
            Ok(s) => Ok(DaemonSettings { global_layout: s.global_layout, port }),
            Err(e) => Err(e),
        }
    }
}

/// A port that was set is the port read back, and setting it keeps the
/// global layout; a layout that was set is the layout read back, and
/// setting it keeps the port.
pub proof fn law_settings_read_after_write(s: DaemonSettings, port: u16, layout: Option<String>)
    ensures
        with_port(s, port).port == port,
        with_port(s, port).global_layout == s.global_layout,
        with_layout(s, layout).global_layout == layout,
        with_layout(s, layout).port == s.port,
{
}

/// Exactly the supported presets pass layout validation.
pub proof fn law_valid_layouts_are_presets(layout: Seq<char>)
    ensures
        layout_error(layout) is None <==> is_supported_layout(layout),
{
    reveal_strlit("ANSI_104");
    reveal_strlit("ISO_105");
    reveal_strlit("JIS_109");
    reveal_strlit("HHKB");
    reveal_strlit("NUMPAD");
    if is_supported_layout(layout) {
        assert(layout.len() > 0);
        assert(vstd::utf8::is_ascii_chars(layout));
        vstd::utf8::is_ascii_chars_encode_utf8(layout);
    }
}

} // verus!
