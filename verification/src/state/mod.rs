//! The application's top-level state machine: idle, previewing a capture, editing it.

pub mod machine;

pub use machine::{AppEvent, AppState, StateError, StateMachine, StateTransition};
