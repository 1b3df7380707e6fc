//! The shortcut editor and settings logic of a small keyboard-layout switcher.

pub mod keys;
pub mod shortcuts;
pub mod window;
pub mod settings;
pub mod laws;
