//! Keyboard shortcut resolution.

pub mod shortcut;

pub use shortcut::{
    resolve_shortcut, shortcut_character_from_keycode, InputContext, ShortcutAction, ShortcutKey,
    ShortcutModifiers,
};
