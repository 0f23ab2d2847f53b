//! An interactive terminal color picker: a saturation/value grid and a hue
//! strip rendered at double vertical resolution, a set of numeric/hex input
//! fields, and a codec for the hex, rgb and hsv clipboard text forms.
//!
//! Colors are held as exact fractions (hue in degrees below 360, saturation
//! and value in [0, 1]), so converting an 8-bit RGB triple to HSV and back is
//! lossless.  The components never perform terminal or clipboard I/O: they
//! consume plain input events and produce draw instructions and clipboard
//! text, which a thin frontend carries out.

pub mod clipboard;
pub mod color;
pub mod constants;
pub mod crossterm_commands;
pub mod frac;
pub mod render;
pub mod state;
pub mod text;
pub mod types;
pub mod ui;
pub mod utils;
