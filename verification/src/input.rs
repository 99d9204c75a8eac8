//! Keyboard input: the push-to-talk hotkey and the paste keystrokes.
pub mod hotkey;
pub mod paste;
