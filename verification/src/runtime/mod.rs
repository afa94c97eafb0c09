//! State the running app keeps between windows.

pub mod layout;
pub mod preview_windows;
pub mod toast;
pub mod window_state;

pub use window_state::{RuntimeWindowGeometry, RuntimeWindowKind, RuntimeWindowState};
