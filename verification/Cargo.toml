[package]
name = "keyrx_daemon"
version = "0.1.0"
edition = "2021"
publish = false

[dependencies]
evdev = "=0.12.2"
serde = { version = "=1.0.229", features = ["derive"] }
serde_json = "=1.0.154"
log = "=0.4.35"
env_logger = "=0.11.11"
clap = { version = "=4.6.7", features = ["derive"] }
thiserror = "=1.0.69"
dirs = "=5.0.1"
signal-hook = "0.3"
humantime = "2"
