//! Closing the editor: whether a close request closes the window, runs the close
//! transition, asks about unsaved edits or keeps the window open, and what the unsaved-edits
//! dialog's answers lead to. The window, the dialog and the saving stay with the caller,
//! which reports back what happened.

use vstd::prelude::*;

use crate::chars::{append_chars, chars_of, copy_text, string_from_chars};
use crate::state::AppState;

verus! {

/// Where a request to close the editor came from.
#[derive(Debug, Clone, Copy, PartialEq, Eq, Structural)]
pub enum EditorCloseOrigin {
    EditorButton,
    WindowCloseRequest,
}

/// Whether the editor window may close.
#[derive(Debug, Clone, Copy, PartialEq, Eq, Structural)]
pub enum EditorCloseOutcome {
    AllowWindowClose,
    KeepWindowOpen,
}

/// The next step of a close request.
#[derive(Debug, Clone, Copy, PartialEq, Eq, Structural)]
pub enum EditorCloseStep {
    /// The application is not in the editor state: the window may close; the caller closes
    /// it itself when `close_window` is set.
    CloseOutsideEditor { close_window: bool },
    /// Nothing is unsaved: the caller runs the close transition and reports the state it
    /// leads to (see `editor_close_transition_outcome`).
    RunCloseTransition,
    /// Edits are unsaved: the caller asks about them, unless that dialog is already open,
    /// and keeps the window open meanwhile.
    AskAboutUnsavedEdits,
    /// The window stays open; the status says why.
    KeepOpen,
}

/// The step a close request takes.
pub open spec fn spec_editor_close_step(
    state: AppState,
    origin: EditorCloseOrigin,
    has_unsaved_changes: bool,
    has_active_capture: bool,
    storage_available: bool,
) -> EditorCloseStep {
    if state != AppState::Editor {
        EditorCloseStep::CloseOutsideEditor { close_window: origin == EditorCloseOrigin::EditorButton }
    } else if !has_unsaved_changes {
        EditorCloseStep::RunCloseTransition
    } else if !has_active_capture || !storage_available {
        EditorCloseStep::KeepOpen
    } else {
        EditorCloseStep::AskAboutUnsavedEdits
    }
}

/// Decides a close request and sets the status where the decision explains itself.
pub fn editor_close_request_step(
    state: AppState,
    origin: EditorCloseOrigin,
    has_unsaved_changes: bool,
    has_active_capture: bool,
    storage_available: bool,
    status: &mut String,
) -> (step: EditorCloseStep)
    ensures
        step == spec_editor_close_step(state, origin, has_unsaved_changes, has_active_capture, storage_available),
        match step {
            EditorCloseStep::CloseOutsideEditor { close_window: true } => final(status)@
                == "editor close requested outside editor state; closing window directly"@,
            EditorCloseStep::KeepOpen => final(status)@ == if !has_active_capture {
                "editor close requires an active capture"@
            } else {
                "storage service unavailable"@
            },
            _ => final(status)@ == old(status)@,
        },
{
    let in_editor = match state {
        AppState::Editor => true,
        _ => false,
    };
    if !in_editor {
        let close_window = match origin {
            EditorCloseOrigin::EditorButton => true,
            EditorCloseOrigin::WindowCloseRequest => false,
        };
        if close_window {
            *status = copy_text("editor close requested outside editor state; closing window directly");
        }
        return EditorCloseStep::CloseOutsideEditor { close_window };
    }
    if !has_unsaved_changes {
        return EditorCloseStep::RunCloseTransition;
    }
    if !has_active_capture {
        *status = copy_text("editor close requires an active capture");
        return EditorCloseStep::KeepOpen;
    }
    if !storage_available {
        *status = copy_text("storage service unavailable");
        return EditorCloseStep::KeepOpen;
    }
    EditorCloseStep::AskAboutUnsavedEdits
}

/// What the close step means for the window: it closes when outside the editor state, and
/// stays open while a question is asked or the request was refused.
pub fn editor_close_step_outcome(step: EditorCloseStep) -> (outcome: Option<EditorCloseOutcome>)
    ensures
        outcome == match step {
            EditorCloseStep::CloseOutsideEditor { .. } => Some(EditorCloseOutcome::AllowWindowClose),
            EditorCloseStep::RunCloseTransition => None,
            _ => Some(EditorCloseOutcome::KeepWindowOpen),
        },
{
    match step {
        EditorCloseStep::CloseOutsideEditor { .. } => Some(EditorCloseOutcome::AllowWindowClose),
        EditorCloseStep::RunCloseTransition => None,
        _ => Some(EditorCloseOutcome::KeepWindowOpen),
    }
}

/// After the close transition ran: the window closes once the application has left the
/// editor state; otherwise it stays open and the status says the transition was blocked.
pub fn editor_close_transition_outcome(state_after: AppState, status: &mut String) -> (outcome: EditorCloseOutcome)
    ensures
        state_after != AppState::Editor ==> outcome == EditorCloseOutcome::AllowWindowClose && final(status)@
            == old(status)@,
        state_after == AppState::Editor ==> outcome == EditorCloseOutcome::KeepWindowOpen && final(status)@
            == "editor close transition blocked"@,
{
    match state_after {
        AppState::Editor => {
            *status = copy_text("editor close transition blocked");
            EditorCloseOutcome::KeepWindowOpen
        },
        _ => EditorCloseOutcome::AllowWindowClose,
    }
}

/// An answer to the unsaved-edits dialog.
#[derive(Debug, Clone, Copy, PartialEq, Eq, Structural)]
pub enum UnsavedDialogResponse {
    /// "Save and Close", also the answer to Enter.
    Accept,
    /// "Don't Save".
    Reject,
    /// "Cancel", Escape, or the dialog closed some other way.
    Cancel,
}

/// What an answer to the unsaved-edits dialog leads to.
#[derive(Debug, Clone, Copy, PartialEq, Eq, Structural)]
pub enum UnsavedDialogStep {
    /// Save the edited image; when saving succeeds, run the close transition.
    SaveThenClose,
    /// The edited image cannot be saved without its source; nothing closes.
    SourceUnavailable,
    /// Discard the capture's files; when that succeeds, forget the capture, clear the
    /// unsaved mark and run the close transition.
    DiscardThenClose,
    /// Nothing closes.
    Canceled,
}

pub open spec fn spec_unsaved_dialog_step(response: UnsavedDialogResponse, source_available: bool) -> UnsavedDialogStep {
    match response {
        UnsavedDialogResponse::Accept => if source_available {
            UnsavedDialogStep::SaveThenClose
        } else {
            UnsavedDialogStep::SourceUnavailable
        },
        UnsavedDialogResponse::Reject => UnsavedDialogStep::DiscardThenClose,
        UnsavedDialogResponse::Cancel => UnsavedDialogStep::Canceled,
    }
}

/// The step an answer leads to, with the status and toast it shows at once, if any.
pub fn unsaved_dialog_step(response: UnsavedDialogResponse, source_available: bool) -> (r: (
    UnsavedDialogStep,
    Option<(String, String)>,
))
    ensures
        r.0 == spec_unsaved_dialog_step(response, source_available),
        match r.0 {
            UnsavedDialogStep::SourceUnavailable => r.1 matches Some((s, t)) && s@
                == "editor source image unavailable"@ && t@ == "Source image unavailable"@,
            UnsavedDialogStep::Canceled => r.1 matches Some((s, t)) && s@ == "editor close canceled"@
                && t@ == "Close canceled"@,
            _ => r.1 is None,
        },
{
    match response {
        UnsavedDialogResponse::Accept => {
            if source_available {
                (UnsavedDialogStep::SaveThenClose, None)
            } else {
                (
                    UnsavedDialogStep::SourceUnavailable,
                    Some((copy_text("editor source image unavailable"), copy_text("Source image unavailable"))),
                )
            }
        },
        UnsavedDialogResponse::Reject => (UnsavedDialogStep::DiscardThenClose, None),
        UnsavedDialogResponse::Cancel => (
            UnsavedDialogStep::Canceled,
            Some((copy_text("editor close canceled"), copy_text("Close canceled"))),
        ),
    }
}

fn joined(a: &str, b: &str) -> (s: String)
    ensures
        s@ == a@ + b@,
{
    let mut v = chars_of(a);
    append_chars(&mut v, &chars_of(b));
    string_from_chars(&v)
}

/// The status and toast after discarding a capture's files: success names the capture,
/// failure gives the error's text.
pub fn discard_result_messages(capture_id: &str, result: Result<(), &str>) -> (m: (String, String))
    ensures
        match result {
            Ok(()) => m.0@ == "discarded unsaved capture "@ + capture_id@ && m.1@ == "Discarded "@ + capture_id@,
            Err(e) => m.0@ == "discard failed: "@ + e@ && m.1@ == "Discard failed: "@ + e@,
        },
{
    match result {
        Ok(()) => (joined("discarded unsaved capture ", capture_id), joined("Discarded ", capture_id)),
        Err(e) => (joined("discard failed: ", e), joined("Discard failed: ", e)),
    }
}

} // verus!
