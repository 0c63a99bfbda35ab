//! Keyboard and mouse macros: the action model, the merger that turns two
//! captured input streams into a macro, and the interpreter that plays a
//! macro back one step at a time, with its image and pixel queries.

pub mod actions;
pub mod hotkeys;
pub mod images;
pub mod input;
pub mod keycodes_to_string;
pub mod player;
pub mod recorder;
pub mod settings;
