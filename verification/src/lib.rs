//! Capture, annotation and shortcut logic of a screenshot tool, with contracts.

pub mod arith;
pub mod chars;
pub mod geometry;
pub mod input;
pub mod runtime;
pub mod state;
pub mod text;
pub mod theme;
pub mod editor;
pub mod editor_theme;
pub mod ocr;
pub mod ocr_region;
pub mod numbers;
pub mod capture;
pub mod preview;
pub mod session;
pub mod close_flow;
pub mod launchpad;
pub mod clipboard;
pub mod storage;
pub mod actions;
