//! Keyboard remapping daemon: platform domain model, key code tables and
//! the pure decision logic of the daemon, with machine-checked contracts.

pub mod text;
pub mod platform;
pub mod keys;
pub mod processor;
pub mod services;
pub mod cli;
pub mod test_utils;
