use chalkak::capture::CaptureError;
use chalkak::editor::history::{EditorHistory, EditorHistoryAction};
use chalkak::editor::tools::{BlurRegion, ToolPoint};
use chalkak::editor::{EditorTools, ToolKind};
use chalkak::ocr::OcrError;
use chalkak::clipboard::ClipboardError;
use chalkak::preview::{PreviewAction, PreviewActionError, PreviewEvent};
use chalkak::storage::StorageError;
use chalkak::session::{
    format_capture_ids_for_display, matches_preview_action, ocr_processing_status,
    ocr_result_messages, preview_event_capture_id, requires_main_thread_preview_action,
    reset_editor_session_state, should_release_headless_startup_hold, text_input_should_be_active,
    transition_with_status, launchpad_action_availability, preview_action_ui_outcome, EditorSessionState, PreviewActionLabels,
    TextInputActivation,
};
use chalkak::state::{AppEvent, AppState, StateError, StateMachine};

#[test]
fn format_capture_ids_for_display_returns_none_for_empty_ids() {
    assert_eq!(format_capture_ids_for_display(&Vec::new()), "IDs: none");
}

#[test]
fn format_capture_ids_for_display_numbers_each_capture_id() {
    let ids = vec!["capture-a".to_string(), "capture-b".to_string()];
    assert_eq!(format_capture_ids_for_display(&ids), "IDs:\n 1. capture-a\n 2. capture-b");
}

#[test]
fn format_capture_ids_for_display_aligns_two_digit_numbers() {
    let ids: Vec<String> = (1..=10).map(|i| format!("c{i}")).collect();
    let shown = format_capture_ids_for_display(&ids);
    assert!(shown.starts_with("IDs:\n 1. c1\n"));
    assert!(shown.ends_with("\n 9. c9\n10. c10"));
}

#[test]
fn text_input_activation_auto_follows_text_tool() {
    assert!(text_input_should_be_active(ToolKind::Text, TextInputActivation::Auto));
    assert!(!text_input_should_be_active(ToolKind::Select, TextInputActivation::Auto));
}

#[test]
fn text_input_activation_force_modes_override_tool_kind() {
    assert!(text_input_should_be_active(ToolKind::Select, TextInputActivation::ForceOn));
    assert!(!text_input_should_be_active(ToolKind::Text, TextInputActivation::ForceOff));
}

#[test]
fn should_release_headless_startup_hold_only_when_idle_without_runtime_windows() {
    assert!(should_release_headless_startup_hold(true, true, AppState::Idle, false, 0, false));
    assert!(!should_release_headless_startup_hold(false, true, AppState::Idle, false, 0, false));
    assert!(!should_release_headless_startup_hold(true, false, AppState::Idle, false, 0, false));
    assert!(!should_release_headless_startup_hold(true, true, AppState::Preview, false, 0, false));
    assert!(!should_release_headless_startup_hold(true, true, AppState::Idle, true, 0, false));
    assert!(!should_release_headless_startup_hold(true, true, AppState::Idle, false, 1, false));
    assert!(!should_release_headless_startup_hold(true, true, AppState::Idle, false, 0, true));
}

#[test]
fn transition_with_status_sets_message_when_transition_is_blocked() {
    let mut machine = StateMachine::new();
    let mut status_log = String::new();

    let changed = transition_with_status(
        &mut machine,
        &mut status_log,
        AppEvent::CloseEditor,
        "transition blocked",
        "cannot transition",
    );

    assert!(!changed);
    assert_eq!(status_log.as_str(), "transition blocked");
    assert_eq!(machine.state(), AppState::Idle);
}

#[test]
fn transition_with_status_updates_machine_on_success() {
    let mut machine = StateMachine::new();
    let mut status_log = String::new();

    let changed = transition_with_status(
        &mut machine,
        &mut status_log,
        AppEvent::OpenPreview,
        "transition blocked",
        "cannot transition",
    );

    assert!(changed);
    assert_eq!(machine.state(), AppState::Preview);
    assert!(status_log.is_empty());
}

#[test]
fn ocr_processing_status_indicates_engine_state() {
    assert_eq!(ocr_processing_status(true), "Recognizing text...");
    assert_eq!(ocr_processing_status(false), "Initializing OCR engine...");
}

#[test]
fn handle_ocr_text_result_sets_no_text_found_for_empty_input() {
    let (status, notification) = ocr_result_messages("");
    assert_eq!(status.as_str(), "OCR: no text found");
    assert_eq!(notification.as_str(), "No text found");
}

#[test]
fn handle_ocr_text_result_reports_char_count_for_non_empty_text() {
    let (status, notification) = ocr_result_messages("hello world");
    assert_eq!(status.as_str(), "OCR copied 11 chars");
    assert_eq!(notification.as_str(), "Copied: hello world");
}

#[test]
fn ocr_result_notification_shortens_long_text() {
    let text: String = std::iter::repeat('가').take(61).collect();
    let (status, notification) = ocr_result_messages(&text);
    assert_eq!(status, "OCR copied 61 chars");
    let expected: String = std::iter::repeat('가').take(57).collect::<String>() + "...";
    assert_eq!(notification, format!("Copied: {expected}"));
    let sixty: String = std::iter::repeat('a').take(60).collect();
    assert_eq!(ocr_result_messages(&sixty).1, format!("Copied: {sixty}"));
}

#[test]
fn copy_requires_main_thread_execution() {
    assert!(requires_main_thread_preview_action(PreviewAction::Copy));
    assert!(!requires_main_thread_preview_action(PreviewAction::Save));
    assert!(!requires_main_thread_preview_action(PreviewAction::Delete));
}

#[test]
fn preview_action_labels_and_event_matching() {
    let labels = PreviewActionLabels::for_action(PreviewAction::Delete);
    assert_eq!(
        (labels.operation, labels.title, labels.past, labels.success_title),
        ("delete", "Delete", "deleted", "Deleted")
    );
    assert!(requires_main_thread_preview_action(PreviewAction::Copy));
    assert!(!requires_main_thread_preview_action(PreviewAction::Save));
    let event = PreviewEvent::Save { capture_id: "capture-save".to_string() };
    assert!(matches_preview_action(PreviewAction::Save, &event));
    assert!(!matches_preview_action(PreviewAction::Copy, &event));
    assert_eq!(preview_event_capture_id(&event), "capture-save");
}

#[test]
fn undo_then_redo_restores_objects() {
    let mut tools = EditorTools::new();
    let mut history = EditorHistory::new();
    assert!(!history.apply(EditorHistoryAction::Undo, &mut tools));
    assert_eq!(EditorHistoryAction::Undo.empty_message(), "undo stack empty");

    history.record_undo_snapshot(tools.objects().to_vec());
    let blur = tools.add_blur(BlurRegion::new(1, 2, 3, 4)).expect("blur");
    history.record_undo_snapshot(tools.objects().to_vec());
    let _arrow = tools.add_arrow(ToolPoint::new(0, 0), ToolPoint::new(9, 9)).expect("arrow");
    assert_eq!(tools.objects().len(), 2);

    assert!(history.apply(EditorHistoryAction::Undo, &mut tools));
    assert_eq!(tools.objects().len(), 1);
    assert!(tools.get_blur(blur).is_some());
    assert_eq!(history.undo_depth(), 1);
    assert_eq!(history.redo_depth(), 1);

    assert!(history.apply(EditorHistoryAction::Redo, &mut tools));
    assert_eq!(tools.objects().len(), 2);
    assert_eq!(history.redo_depth(), 0);
    assert_eq!(EditorHistoryAction::Redo.applied_message(), "redo applied");

    history.record_undo_snapshot_if_some(None);
    assert_eq!(history.undo_depth(), 2);
    assert!(history.apply(EditorHistoryAction::Undo, &mut tools));
    history.record_undo_snapshot(tools.objects().to_vec());
    assert_eq!(history.redo_depth(), 0);
}

#[test]
fn errors_describe_themselves() {
    let err = StateError::InvalidStateTransition { from: AppState::Idle, event: AppEvent::ClosePreview };
    assert_eq!(err.describe(), "invalid state transition: from Idle using event ClosePreview");
    assert_eq!(
        CaptureError::InvalidSelection { message: "x".to_string() }.describe(),
        "invalid capture selection: x"
    );
    assert_eq!(CaptureError::NoFocusedMonitor.describe(), "no focused monitor found");
    assert_eq!(
        OcrError::Recognition { message: "boom".to_string() }.describe(),
        "recognition failed: boom"
    );
}

#[test]
fn reset_editor_session_state_clears_dirty_flags_and_modes() {
    let mut editor_runtime = EditorSessionState::new();
    editor_runtime.has_unsaved_changes = true;
    editor_runtime.close_dialog_open = true;
    editor_runtime.input_mode.activate_crop();

    reset_editor_session_state(&mut editor_runtime);

    assert!(!editor_runtime.has_unsaved_changes);
    assert!(!editor_runtime.close_dialog_open);
    assert!(!editor_runtime.input_mode.crop_active());
    assert!(!editor_runtime.input_mode.text_input_active());
}

#[test]
fn clear_runtime_state_forgets_capture() {
    let mut editor_runtime = EditorSessionState::new();
    editor_runtime.capture_id = Some("capture-1".to_string());
    editor_runtime.input_mode.start_text_input();
    editor_runtime.clear_runtime_state();
    assert_eq!(editor_runtime.capture_id, None);
    assert!(!editor_runtime.input_mode.text_input_active());
}

#[test]
fn launchpad_buttons_follow_state_and_capture() {
    let idle = launchpad_action_availability(AppState::Idle, true, false);
    assert!(idle.open_preview && !idle.open_editor && !idle.save && !idle.ocr);
    assert!(idle.ocr_models_missing_hint);
    let preview = launchpad_action_availability(AppState::Preview, true, true);
    assert!(preview.open_editor && preview.save && preview.copy && preview.ocr && preview.delete);
    assert!(preview.close_preview && !preview.close_editor && !preview.ocr_models_missing_hint);
    let empty = launchpad_action_availability(AppState::Preview, false, true);
    assert!(!empty.save && !empty.ocr && empty.close_preview);
    let editor = launchpad_action_availability(AppState::Editor, true, true);
    assert!(editor.close_editor && !editor.open_preview && !editor.save);
}

#[test]
fn preview_action_ui_outcome_reports_success_for_matching_event() {
    let outcome = preview_action_ui_outcome(
        PreviewAction::Save,
        "active-capture",
        Ok(PreviewEvent::Save { capture_id: "capture-save".to_string() }),
    );

    assert_eq!(outcome.event, Some(PreviewEvent::Save { capture_id: "capture-save".to_string() }));
    assert_eq!(outcome.status_message, "saved capture capture-save");
    assert_eq!(outcome.toast_capture_id, "capture-save");
    assert_eq!(outcome.toast_message, "Saved capture-save");
}

#[test]
fn preview_action_ui_outcome_reports_error_for_failed_copy() {
    let result = Err(PreviewActionError::ClipboardError {
        operation: "copy",
        capture_id: "capture-copy".to_string(),
        source: ClipboardError::CommandIo {
            command: "wl-copy".to_string(),
            message: "exit status 1".to_string(),
        },
    });

    let outcome = preview_action_ui_outcome(PreviewAction::Copy, "capture-copy", result);

    assert_eq!(outcome.event, None);
    assert_eq!(outcome.toast_capture_id, "capture-copy");
    assert!(outcome.status_message.starts_with("copy failed: clipboard error while copy capture-copy"));
    assert!(outcome.toast_message.starts_with("Copy failed: clipboard error while copy capture-copy"));
}

#[test]
fn preview_action_ui_outcome_reports_unexpected_event_on_active_capture() {
    let outcome = preview_action_ui_outcome(
        PreviewAction::Save,
        "active",
        Ok(PreviewEvent::Close { capture_id: "odd\"id".to_string() }),
    );
    assert_eq!(outcome.event, Some(PreviewEvent::Close { capture_id: "odd\"id".to_string() }));
    assert_eq!(outcome.status_message, "save produced Close { capture_id: \"odd\\\"id\" }");
    assert_eq!(outcome.toast_message, "Save produced Close { capture_id: \"odd\\\"id\" }");
    assert_eq!(outcome.toast_capture_id, "active");
    let expected = format!("{:?}", PreviewEvent::Close { capture_id: "odd\"id\n\u{1}".to_string() });
    assert_eq!(PreviewEvent::Close { capture_id: "odd\"id\n\u{1}".to_string() }.debug_text(), expected);
}

#[test]
fn preview_action_ui_outcome_reports_storage_failure() {
    let result = Err(PreviewActionError::StorageError {
        operation: "delete",
        capture_id: "c1".to_string(),
        source: StorageError { message: "gone".to_string() },
    });
    let outcome = preview_action_ui_outcome(PreviewAction::Delete, "c1", result);
    assert_eq!(outcome.status_message, "delete failed: storage error while delete c1: gone");
    assert_eq!(outcome.toast_message, "Delete failed: storage error while delete c1: gone");
}
