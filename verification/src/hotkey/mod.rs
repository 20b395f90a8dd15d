//! Hotkey chords: the keys, the actions they trigger, and the decisions
//! of the keyboard event tap.

pub mod chord;
pub mod grabber;

pub use chord::{ChordDetector, HotkeyAction, Key};
