//! Configuration service: the records it returns, its errors, the size
//! limit on a configuration, and the fingerprint of configuration code.

use vstd::prelude::*;
use vstd::std_specs::hash::DefaultHasherAdditionalSpecFns;
use vstd::string::StringSliceAdditionalSpecFns;
use std::hash::Hasher;
use std::collections::hash_map::DefaultHasher;
use crate::text::{concat2, hex, owned, u64_to_hex};
use crate::platform::common::io_error_message;

verus! {

/// Largest accepted configuration, in bytes (one mebibyte).
pub const MAX_CONFIG_SIZE: usize = 1_048_576;

/// Configuration information returned for the active profile.
#[derive(Debug, Clone)]
pub struct ConfigInfo {
    /// The configuration code.
    pub code: String,
    /// The fingerprint of the code (see [`ConfigService::compute_hash`]).
    pub hash: String,
    /// The profile the code belongs to.
    pub profile: String,
}

/// Layer information.
#[derive(Debug, Clone)]
pub struct LayerInfo {
    /// Layer identifier.
    pub id: String,
    /// Number of key mappings in the layer.
    pub mapping_count: usize,
}

/// Errors that can occur during configuration operations.
#[derive(Debug)]
pub enum ConfigError {
    /// The active profile could not be determined or found.
    ProfileNotFound(String),
    /// The configuration file does not exist.
    FileNotFound,
    /// Reading or writing the configuration failed.
    IoError(std::io::Error),
    /// The configuration generator failed, with its message.
    GeneratorError(String),
    /// The configuration is larger than [`MAX_CONFIG_SIZE`].
    ConfigTooLarge,
    /// The configuration does not load.
    InvalidConfig(String),
    /// The named layer does not exist.
    LayerNotFound(String),
    /// The key name is not known.
    InvalidKeyName(String),
}

/// The text of a configuration error other than an I/O error.
pub open spec fn config_error_message(e: ConfigError) -> Seq<char> {
    match e {
        ConfigError::ProfileNotFound(m) => "Active profile not found: "@ + m@,
        ConfigError::FileNotFound => "Configuration file not found"@,
        ConfigError::IoError(_) => "I/O error: "@,
        ConfigError::GeneratorError(m) => "Generator error: "@ + m@,
        ConfigError::ConfigTooLarge => "Configuration too large (max 1MB)"@,
        ConfigError::InvalidConfig(m) => "Invalid configuration: "@ + m@,
        ConfigError::LayerNotFound(m) => "Layer not found: "@ + m@,
        ConfigError::InvalidKeyName(m) => "Invalid key name: "@ + m@,
    }
}

impl ConfigError {
    /// Renders the error as human-readable text; for I/O errors the text
    /// starts with `I/O error: ` followed by the I/O error's own message.
    pub fn to_string(&self) -> (r: String)
        ensures
            !(*self is IoError) ==> r@ == config_error_message(*self),
            *self is IoError ==> "I/O error: "@.is_prefix_of(r@),
    {
        match self {
            ConfigError::ProfileNotFound(m) => concat2("Active profile not found: ", m.as_str()),
            ConfigError::FileNotFound => owned("Configuration file not found"),
            ConfigError::IoError(e) => io_error_message("I/O error: ", e),
            ConfigError::GeneratorError(m) => concat2("Generator error: ", m.as_str()),
            ConfigError::ConfigTooLarge => owned("Configuration too large (max 1MB)"),
            ConfigError::InvalidConfig(m) => concat2("Invalid configuration: ", m.as_str()),
            ConfigError::LayerNotFound(m) => concat2("Layer not found: ", m.as_str()),
            ConfigError::InvalidKeyName(m) => concat2("Invalid key name: ", m.as_str()),
        }
    }
}

impl From<std::io::Error> for ConfigError {
    fn from(e: std::io::Error) -> (r: Self) {
        ConfigError::IoError(e)
    }
}

impl vstd::std_specs::convert::FromSpecImpl<std::io::Error> for ConfigError {
    open spec fn obeys_from_spec() -> bool {
        true
    }

    open spec fn from_spec(v: std::io::Error) -> Self {
        ConfigError::IoError(v)
    }
}

/// The writes that hashing a string (`<str as Hash>::hash`) makes into a
/// hasher, as the byte sequences it hands to `Hasher::write`.
pub uninterp spec fn str_hash_writes(s: Seq<char>) -> Seq<Seq<u8>>;

/// Feeds a string into a `DefaultHasher` (`<str as Hash>::hash`).  What it
/// writes depends on the string alone and is named, not spelled out.
#[verifier::external_body]
fn hash_str_into(code: &str, state: &mut DefaultHasher)
    ensures
        final(state)@ == old(state)@ + str_hash_writes(code@),
{
    std::hash::Hash::hash(code, state);
}

/// The fingerprint of configuration code: the lower-case hexadecimal
/// rendering of the code's `DefaultHasher` hash.
pub open spec fn code_fingerprint(code: Seq<char>) -> Seq<char> {
    hex(DefaultHasher::spec_finish(str_hash_writes(code)) as nat)
}

/// Configuration operations that do not need the profile store.
pub struct ConfigService {}

impl ConfigService {
    /// Creates the service.
    pub fn new() -> (r: Self) {
        ConfigService {}
    }

    /// Computes the fingerprint of configuration code; equal code gives an
    /// equal fingerprint.
    pub fn compute_hash(code: &str) -> (r: String)
        ensures
            r@ == code_fingerprint(code@),
    {
        let mut hasher = DefaultHasher::new();
        hash_str_into(code, &mut hasher);
        assert(hasher@ =~= str_hash_writes(code@));
        let h = hasher.finish();
        u64_to_hex(h)
    }

    /// Enforces the size limit on new configuration code: code longer than
    /// [`MAX_CONFIG_SIZE`] bytes is refused.
    pub fn check_config_size(code: &str) -> (r: Result<(), ConfigError>)
        ensures
            r is Ok <==> code.spec_bytes().len() <= MAX_CONFIG_SIZE,
            r matches Err(e) ==> e is ConfigTooLarge,
    {
        if code.as_bytes().len() > MAX_CONFIG_SIZE {
            Err(ConfigError::ConfigTooLarge)
        } else {
            Ok(())
        }
    }
}

} // verus!
