//! Minimal terminal control core: a screen-buffer model, decoded key events,
//! cursor/output state machines for the two terminal styles, and a raw-mode
//! guard that restores the device's original mode exactly once.

pub mod ansi;
pub mod console;
pub mod keys;
pub mod rawmode;
pub mod render;
pub mod screen;
