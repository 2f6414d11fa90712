//! Linux platform logic: evdev key codes, held-key bookkeeping and event
//! timestamps.

pub mod input_capture;
pub mod keycode_map;
pub mod output_injection;

pub use keycode_map::{evdev_to_keycode, keycode_to_evdev};
pub use output_injection::HeldKeys;
