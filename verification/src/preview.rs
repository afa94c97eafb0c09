//! What the user can do with a capture in its preview window, and what was done.

use vstd::prelude::*;

use crate::chars::{append_chars, chars_of, debug_escape_chars, spec_debug_escape, string_from_chars};
use crate::clipboard::{spec_clipboard_error_text, ClipboardError};
use crate::input::shortcut::ShortcutAction;
use crate::session::spec_preview_event_capture_id;
use crate::storage::StorageError;

verus! {

/// A request made from a capture's preview window.
#[derive(Debug, Clone, Copy, PartialEq, Eq, Structural)]
pub enum PreviewAction {
    Save,
    Copy,
    Edit,
    Delete,
    Close,
}

/// A preview request carried out, for the capture it was about.
#[derive(Debug, Clone, PartialEq, Eq)]
pub enum PreviewEvent {
    Save { capture_id: String },
    Copy { capture_id: String },
    Edit { capture_id: String },
    Delete { capture_id: String },
    Close { capture_id: String },
}

/// The name of an event's variant.
pub open spec fn spec_preview_event_name(e: PreviewEvent) -> Seq<char> {
    match e {
        PreviewEvent::Save { .. } => "Save"@,
        PreviewEvent::Copy { .. } => "Copy"@,
        PreviewEvent::Edit { .. } => "Edit"@,
        PreviewEvent::Delete { .. } => "Delete"@,
        PreviewEvent::Close { .. } => "Close"@,
    }
}

/// An event in the form `{:?}` gives it, `Save { capture_id: "..." }`, with the id escaped
/// as `spec_debug_escape` says.
pub open spec fn spec_preview_event_debug(e: PreviewEvent) -> Seq<char> {
    spec_preview_event_name(e) + " { capture_id: \""@ + spec_debug_escape(spec_preview_event_capture_id(e)) + "\" }"@
}

impl PreviewEvent {
    /// The event in the form `{:?}` gives it; the id is escaped as `spec_debug_escape` says,
    /// which matches `{:?}` for every ASCII character.
    pub fn debug_text(&self) -> (s: String)
        ensures
            s@ == spec_preview_event_debug(*self),
    {
        let (name, id) = match self {
            PreviewEvent::Save { capture_id } => ("Save", capture_id),
            PreviewEvent::Copy { capture_id } => ("Copy", capture_id),
            PreviewEvent::Edit { capture_id } => ("Edit", capture_id),
            PreviewEvent::Delete { capture_id } => ("Delete", capture_id),
            PreviewEvent::Close { capture_id } => ("Close", capture_id),
        };
        let mut v = chars_of(name);
        append_chars(&mut v, &chars_of(" { capture_id: \""));
        append_chars(&mut v, &debug_escape_chars(id.as_str()));
        append_chars(&mut v, &chars_of("\" }"));
        string_from_chars(&v)
    }
}

/// Why a preview request failed: the operation, the capture, and the backend's error.
#[derive(Debug, Clone)]
pub enum PreviewActionError {
    StorageError { operation: &'static str, capture_id: String, source: StorageError },
    ClipboardError { operation: &'static str, capture_id: String, source: ClipboardError },
}

/// `<lead><operation> <capture>: <cause>`.
pub(crate) fn action_error_text(lead: &str, operation: &str, capture_id: &str, cause: &str) -> (s: String)
    ensures
        s@ == lead@ + operation@ + " "@ + capture_id@ + ": "@ + cause@,
{
    let mut v = chars_of(lead);
    append_chars(&mut v, &chars_of(operation));
    append_chars(&mut v, &chars_of(" "));
    append_chars(&mut v, &chars_of(capture_id));
    append_chars(&mut v, &chars_of(": "));
    append_chars(&mut v, &chars_of(cause));
    string_from_chars(&v)
}

pub open spec fn spec_preview_action_error_text(e: PreviewActionError) -> Seq<char> {
    match e {
        PreviewActionError::StorageError { operation, capture_id, source } => "storage error while "@
            + operation@ + " "@ + capture_id@ + ": "@ + source.message@,
        PreviewActionError::ClipboardError { operation, capture_id, source } =>
            "clipboard error while "@ + operation@ + " "@ + capture_id@ + ": "@
            + spec_clipboard_error_text(source),
    }
}

impl PreviewActionError {
    /// The error as shown to the user.
    pub fn describe(&self) -> (s: String)
        ensures
            s@ == spec_preview_action_error_text(*self),
    {
        match self {
            PreviewActionError::StorageError { operation, capture_id, source } => {
                let cause = source.describe();
                action_error_text("storage error while ", operation, capture_id.as_str(), cause.as_str())
            },
            PreviewActionError::ClipboardError { operation, capture_id, source } => {
                let cause = source.describe();
                action_error_text("clipboard error while ", operation, capture_id.as_str(), cause.as_str())
            },
        }
    }
}

/// The preview button a preview shortcut presses.
#[derive(Debug, Clone, Copy, PartialEq, Eq, Structural)]
pub enum PreviewShortcutTarget {
    Save,
    Copy,
    Ocr,
    Edit,
    Delete,
    Close,
}

/// The preview button each preview shortcut presses.
pub open spec fn spec_preview_shortcut_target(action: ShortcutAction) -> Option<PreviewShortcutTarget> {
    match action {
        ShortcutAction::PreviewSave => Some(PreviewShortcutTarget::Save),
        ShortcutAction::PreviewCopy => Some(PreviewShortcutTarget::Copy),
        ShortcutAction::PreviewOcr => Some(PreviewShortcutTarget::Ocr),
        ShortcutAction::PreviewEdit => Some(PreviewShortcutTarget::Edit),
        ShortcutAction::PreviewDelete => Some(PreviewShortcutTarget::Delete),
        ShortcutAction::PreviewClose => Some(PreviewShortcutTarget::Close),
        _ => None,
    }
}

/// The preview button a shortcut presses; none for other shortcuts.
pub fn preview_shortcut_target(action: ShortcutAction) -> (r: Option<PreviewShortcutTarget>)
    ensures
        r == spec_preview_shortcut_target(action),
{
    match action {
        ShortcutAction::PreviewSave => Some(PreviewShortcutTarget::Save),
        ShortcutAction::PreviewCopy => Some(PreviewShortcutTarget::Copy),
        ShortcutAction::PreviewOcr => Some(PreviewShortcutTarget::Ocr),
        ShortcutAction::PreviewEdit => Some(PreviewShortcutTarget::Edit),
        ShortcutAction::PreviewDelete => Some(PreviewShortcutTarget::Delete),
        ShortcutAction::PreviewClose => Some(PreviewShortcutTarget::Close),
        _ => None,
    }
}

/// Whether a preview shortcut presses a button: recognition only when its models are there.
pub fn preview_shortcut_presses_button(action: ShortcutAction, ocr_available: bool) -> (pressed: Option<PreviewShortcutTarget>)
    ensures
        pressed == (match spec_preview_shortcut_target(action) {
            Some(PreviewShortcutTarget::Ocr) => if ocr_available {
                Some(PreviewShortcutTarget::Ocr)
            } else {
                None
            },
            other => other,
        }),
{
    match preview_shortcut_target(action) {
        Some(PreviewShortcutTarget::Ocr) => {
            if ocr_available {
                Some(PreviewShortcutTarget::Ocr)
            } else {
                None
            }
        },
        other => other,
    }
}

/// A rectangle on the screen, such as a monitor's area.
#[derive(Debug, Clone, Copy, PartialEq, Eq, Structural)]
pub struct PreviewBounds {
    pub x: i32,
    pub y: i32,
    pub width: i32,
    pub height: i32,
}

/// The area of the screen a capture was taken from.
#[derive(Debug, Clone, Copy, PartialEq, Eq, Structural)]
pub struct PreviewSourceArea {
    pub x: i32,
    pub y: i32,
    pub width: i32,
    pub height: i32,
}

/// The preview window's default and minimum size.
#[derive(Debug, Clone, Copy, PartialEq, Eq, Structural)]
pub struct PreviewSizingTokens {
    pub default_width: i32,
    pub default_height: i32,
    pub min_width: i32,
    pub min_height: i32,
}

} // verus!
