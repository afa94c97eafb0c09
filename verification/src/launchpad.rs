//! The launchpad's actions on the application state: opening and closing the preview and
//! the editor, taking a fresh capture into the preview, and checking that a preview action
//! can run. The caller resolves the active capture and does the work; these decide the state
//! transition and the status line.

use vstd::prelude::*;

use crate::chars::{append_chars, chars_of, copy_text, string_from_chars};
use crate::preview::PreviewAction;
use crate::session::{machine_allows, spec_preview_action_labels, transition_with_status, PreviewActionLabels};
use crate::state::machine::{spec_next_state, spec_state_name, state_name};
use crate::state::{AppEvent, AppState, StateMachine};

verus! {

fn joined(a: &str, b: &str) -> (s: String)
    ensures
        s@ == a@ + b@,
{
    let mut v = chars_of(a);
    append_chars(&mut v, &chars_of(b));
    string_from_chars(&v)
}

/// Opens the preview of the active capture: without one the status asks for a capture; in
/// preview it is open already; from idle the preview transition runs; from the editor it
/// cannot open.
pub fn open_preview(active_capture_id: Option<&str>, machine: &mut StateMachine, status: &mut String)
    ensures
        match active_capture_id {
            None => *final(machine) == *old(machine) && final(status)@ == "capture required before preview"@,
            Some(id) => match old(machine).spec_state() {
                AppState::Preview => *final(machine) == *old(machine) && final(status)@ == "preview opened for "@
                    + id@,
                AppState::Editor => *final(machine) == *old(machine) && final(status)@
                    == "cannot open preview from state "@ + spec_state_name(AppState::Editor),
                AppState::Idle => if machine_allows(*old(machine), AppEvent::OpenPreview) {
                    final(machine).spec_state() == AppState::Preview && final(status)@ == "preview opened for "@
                        + id@
                } else {
                    *final(machine) == *old(machine) && final(status)@
                        == "preview transition blocked for current state"@
                },
            },
        },
{
    let id = match active_capture_id {
        Some(id) => id,
        None => {
            *status = copy_text("capture required before preview");
            return;
        },
    };
    let state = machine.state();
    match state {
        AppState::Preview => {
            *status = joined("preview opened for ", id);
        },
        AppState::Editor => {
            *status = joined("cannot open preview from state ", state_name(state));
        },
        AppState::Idle => {
            if transition_with_status(
                machine,
                status,
                AppEvent::OpenPreview,
                "preview transition blocked for current state",
                "cannot open preview",
            ) {
                *status = joined("preview opened for ", id);
            }
        },
    }
}

/// Opens the editor on the active capture, which needs a capture and the preview state.
pub fn open_editor(active_capture_id: Option<&str>, machine: &mut StateMachine, status: &mut String)
    ensures
        match active_capture_id {
            None => *final(machine) == *old(machine) && final(status)@ == "capture required before editor"@,
            Some(id) => if old(machine).spec_state() != AppState::Preview {
                *final(machine) == *old(machine) && final(status)@ == "editor can only open from preview state"@
            } else {
                final(machine).spec_state() == AppState::Editor && final(status)@ == "editor opened for "@ + id@
            },
        },
{
    let id = match active_capture_id {
        Some(id) => id,
        None => {
            *status = copy_text("capture required before editor");
            return;
        },
    };
    let in_preview = match machine.state() {
        AppState::Preview => true,
        _ => false,
    };
    if !in_preview {
        *status = copy_text("editor can only open from preview state");
        return;
    }
    if transition_with_status(
        machine,
        status,
        AppEvent::OpenEditor,
        "editor transition blocked for current state",
        "cannot open editor",
    ) {
        *status = joined("editor opened for ", id);
    }
}

/// Closes the editor, back to the preview.
pub fn close_editor(machine: &mut StateMachine, status: &mut String)
    ensures
        if old(machine).spec_state() == AppState::Editor {
            final(machine).spec_state() == AppState::Preview && final(status)@ == "editor closed"@
        } else {
            *final(machine) == *old(machine) && final(status)@ == "cannot close editor"@
        },
{
    if transition_with_status(machine, status, AppEvent::CloseEditor, "cannot close editor", "cannot close editor") {
        *status = copy_text("editor closed");
    }
}

/// Whether closing a preview may go ahead: it needs the preview state and a capture to
/// close; otherwise the status says what is missing.
pub fn close_preview_allowed(state: AppState, capture_id: Option<&str>, status: &mut String) -> (allowed: bool)
    ensures
        allowed == (state == AppState::Preview && capture_id is Some),
        state != AppState::Preview ==> final(status)@ == "close preview requires preview state"@,
        state == AppState::Preview && capture_id is None ==> final(status)@
            == "preview close requires an active capture"@,
        allowed ==> final(status)@ == old(status)@,
{
    let in_preview = match state {
        AppState::Preview => true,
        _ => false,
    };
    if !in_preview {
        *status = copy_text("close preview requires preview state");
        return false;
    }
    if capture_id.is_none() {
        *status = copy_text("preview close requires an active capture");
        return false;
    }
    true
}

/// After a capture's preview was closed: with no capture left the application leaves the
/// preview state; otherwise the status names the closed capture.
pub fn close_preview_finish(closed_capture_id: &str, any_capture_left: bool, machine: &mut StateMachine, status: &mut String)
    ensures
        any_capture_left ==> *final(machine) == *old(machine) && final(status)@ == "preview closed for "@
            + closed_capture_id@,
        !any_capture_left ==> if old(machine).spec_state() == AppState::Preview {
            final(machine).spec_state() == AppState::Idle && final(status)@ == "preview closed"@
        } else {
            *final(machine) == *old(machine) && final(status)@ == "cannot close preview"@
        },
{
    if any_capture_left {
        *status = joined("preview closed for ", closed_capture_id);
        return;
    }
    if transition_with_status(machine, status, AppEvent::ClosePreview, "cannot close preview", "cannot close preview") {
        *status = copy_text("preview closed");
    }
}

/// After a fresh capture joined the session: the preview transition runs; when it succeeds
/// the status says the preview opened and the caller announces success.
pub fn open_preview_for_new_capture(capture_id: &str, machine: &mut StateMachine, status: &mut String) -> (opened: bool)
    ensures
        opened == machine_allows(*old(machine), AppEvent::OpenPreview),
        opened ==> final(machine).spec_state() == AppState::Preview && final(status)@ == "preview opened for "@
            + capture_id@,
        !opened ==> *final(machine) == *old(machine) && final(status)@
            == "preview transition blocked for current state"@,
{
    let opened = transition_with_status(
        machine,
        status,
        AppEvent::OpenPreview,
        "preview transition blocked for current state",
        "failed state transition",
    );
    if opened {
        *status = joined("preview opened for ", capture_id);
    }
    opened
}

/// The status and notification after a capture failed: each prefix, a colon, then the error.
pub fn capture_failure_messages(status_prefix: &str, toast_prefix: &str, error: &str) -> (m: (String, String))
    ensures
        m.0@ == status_prefix@ + ": "@ + error@,
        m.1@ == toast_prefix@ + ": "@ + error@,
{
    let mut s = chars_of(status_prefix);
    append_chars(&mut s, &chars_of(": "));
    append_chars(&mut s, &chars_of(error));
    let mut t = chars_of(toast_prefix);
    append_chars(&mut t, &chars_of(": "));
    append_chars(&mut t, &chars_of(error));
    (string_from_chars(&s), string_from_chars(&t))
}

/// Whether a preview action can run: it needs an active capture, the preview state, and
/// the storage service; otherwise the status says which is missing.
pub fn preview_action_precheck(
    action: PreviewAction,
    has_active_capture: bool,
    state: AppState,
    storage_available: bool,
    status: &mut String,
) -> (ready: bool)
    ensures
        ready == (has_active_capture && state == AppState::Preview && storage_available),
        !has_active_capture ==> final(status)@ == spec_preview_action_labels(action).operation@
            + " requires an active capture"@,
        has_active_capture && state != AppState::Preview ==> final(status)@
            == spec_preview_action_labels(action).operation@ + " requires preview state"@,
        has_active_capture && state == AppState::Preview && !storage_available ==> final(status)@
            == "storage service unavailable"@,
        ready ==> final(status)@ == old(status)@,
{
    let labels = PreviewActionLabels::for_action(action);
    if !has_active_capture {
        *status = joined(labels.operation, " requires an active capture");
        return false;
    }
    let in_preview = match state {
        AppState::Preview => true,
        _ => false,
    };
    if !in_preview {
        *status = joined(labels.operation, " requires preview state");
        return false;
    }
    if !storage_available {
        *status = copy_text("storage service unavailable");
        return false;
    }
    true
}

} // verus!
