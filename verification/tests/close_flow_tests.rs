use chalkak::close_flow::{
    discard_result_messages, editor_close_request_step, editor_close_step_outcome,
    editor_close_transition_outcome, unsaved_dialog_step, EditorCloseOrigin, EditorCloseOutcome,
    EditorCloseStep, UnsavedDialogResponse, UnsavedDialogStep,
};
use chalkak::state::AppState;

#[test]
fn close_request_outside_editor_closes_window() {
    let mut status = String::from("before");
    let step = editor_close_request_step(
        AppState::Preview,
        EditorCloseOrigin::EditorButton,
        true,
        true,
        true,
        &mut status,
    );
    assert_eq!(step, EditorCloseStep::CloseOutsideEditor { close_window: true });
    assert_eq!(
        status,
        "editor close requested outside editor state; closing window directly"
    );
    assert_eq!(
        editor_close_step_outcome(step),
        Some(EditorCloseOutcome::AllowWindowClose)
    );

    let mut status = String::from("before");
    let step = editor_close_request_step(
        AppState::Idle,
        EditorCloseOrigin::WindowCloseRequest,
        true,
        true,
        true,
        &mut status,
    );
    assert_eq!(step, EditorCloseStep::CloseOutsideEditor { close_window: false });
    assert_eq!(status, "before");
}

#[test]
fn close_request_in_editor_checks_unsaved_edits() {
    let mut status = String::new();
    let clean = editor_close_request_step(
        AppState::Editor,
        EditorCloseOrigin::EditorButton,
        false,
        false,
        false,
        &mut status,
    );
    assert_eq!(clean, EditorCloseStep::RunCloseTransition);
    assert_eq!(editor_close_step_outcome(clean), None);

    assert_eq!(
        editor_close_request_step(
            AppState::Editor,
            EditorCloseOrigin::WindowCloseRequest,
            true,
            false,
            true,
            &mut status
        ),
        EditorCloseStep::KeepOpen
    );
    assert_eq!(status, "editor close requires an active capture");
    assert_eq!(
        editor_close_request_step(
            AppState::Editor,
            EditorCloseOrigin::WindowCloseRequest,
            true,
            true,
            false,
            &mut status
        ),
        EditorCloseStep::KeepOpen
    );
    assert_eq!(status, "storage service unavailable");
    let ask = editor_close_request_step(
        AppState::Editor,
        EditorCloseOrigin::WindowCloseRequest,
        true,
        true,
        true,
        &mut status,
    );
    assert_eq!(ask, EditorCloseStep::AskAboutUnsavedEdits);
    assert_eq!(
        editor_close_step_outcome(ask),
        Some(EditorCloseOutcome::KeepWindowOpen)
    );
}

#[test]
fn close_transition_outcome_follows_state() {
    let mut status = String::from("kept");
    assert_eq!(
        editor_close_transition_outcome(AppState::Preview, &mut status),
        EditorCloseOutcome::AllowWindowClose
    );
    assert_eq!(status, "kept");
    assert_eq!(
        editor_close_transition_outcome(AppState::Editor, &mut status),
        EditorCloseOutcome::KeepWindowOpen
    );
    assert_eq!(status, "editor close transition blocked");
}

#[test]
fn unsaved_dialog_answers_lead_to_steps() {
    let (step, messages) = unsaved_dialog_step(UnsavedDialogResponse::Accept, true);
    assert_eq!(step, UnsavedDialogStep::SaveThenClose);
    assert!(messages.is_none());
    let (step, messages) = unsaved_dialog_step(UnsavedDialogResponse::Accept, false);
    assert_eq!(step, UnsavedDialogStep::SourceUnavailable);
    assert_eq!(
        messages,
        Some((
            "editor source image unavailable".to_string(),
            "Source image unavailable".to_string()
        ))
    );
    assert_eq!(
        unsaved_dialog_step(UnsavedDialogResponse::Reject, false).0,
        UnsavedDialogStep::DiscardThenClose
    );
    let (step, messages) = unsaved_dialog_step(UnsavedDialogResponse::Cancel, true);
    assert_eq!(step, UnsavedDialogStep::Canceled);
    assert_eq!(
        messages,
        Some(("editor close canceled".to_string(), "Close canceled".to_string()))
    );
}

#[test]
fn discard_messages_name_capture_or_error() {
    assert_eq!(
        discard_result_messages("capture-1", Ok(())),
        (
            "discarded unsaved capture capture-1".to_string(),
            "Discarded capture-1".to_string()
        )
    );
    assert_eq!(
        discard_result_messages("capture-1", Err("disk full")),
        (
            "discard failed: disk full".to_string(),
            "Discard failed: disk full".to_string()
        )
    );
}
