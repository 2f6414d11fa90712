//! Service layer: the business rules shared by the command line and the
//! web interface — daemon settings, configuration checks, device listing
//! and simulation input.

pub mod config_service;
pub mod device_service;
pub mod settings_service;
pub mod simulation_service;

pub use config_service::ConfigService;
pub use device_service::DeviceService;
pub use settings_service::{DaemonSettings, SettingsService, DEFAULT_PORT};

use vstd::prelude::*;

verus! {

/// The owned file-system path type of the standard library.
#[verifier::external_type_specification]
#[verifier::external_body]
pub struct ExPathBuf(std::path::PathBuf);

/// What `dir.join(name)` gives: `dir` with the file name `name` appended.
pub uninterp spec fn joined(dir: std::path::PathBuf, name: Seq<char>) -> std::path::PathBuf;

/// `dir` with the file name `name` appended (`Path::join`), a function of
/// its arguments alone, named [`joined`].
#[verifier::external_body]
pub(crate) fn join_path(dir: &std::path::PathBuf, name: &str) -> (r: std::path::PathBuf)
    ensures
        r == joined(*dir, name@),
{
    dir.join(name)
}

} // verus!
