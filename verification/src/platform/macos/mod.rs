//! macOS platform logic: CGKeyCode tables.

pub mod keycode_map;
