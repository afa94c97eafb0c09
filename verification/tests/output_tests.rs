use chalkak::clipboard::ClipboardError;
use chalkak::editor::output::{
    editor_output_outcome, editor_output_precheck, output_crop_rect, output_crop_region,
    render_failure_messages, should_render_output,
};
use chalkak::editor::tools::{CropElement, CropOptions, ToolPoint};
use chalkak::editor::{EditorAction, EditorActionError, EditorEvent, EditorTools};
use chalkak::state::AppState;
use chalkak::storage::StorageError;

fn crop(x: i32, y: i32, width: u32, height: u32) -> CropElement {
    CropElement::new(7, x, y, width, height, CropOptions::default())
}

#[test]
fn editor_output_precheck_reports_each_missing_piece() {
    let mut status = String::from("kept");
    assert_eq!(
        editor_output_precheck("save", false, AppState::Editor, true, true, &mut status),
        (false, None)
    );
    assert_eq!(status, "save requires an active capture");
    assert_eq!(
        editor_output_precheck("copy", true, AppState::Preview, true, true, &mut status),
        (false, None)
    );
    assert_eq!(status, "editor copy requires editor state");
    assert_eq!(
        editor_output_precheck("save", true, AppState::Editor, false, true, &mut status),
        (false, None)
    );
    assert_eq!(status, "storage service unavailable");
    assert_eq!(
        editor_output_precheck("save", true, AppState::Editor, true, false, &mut status),
        (false, Some("Source image unavailable"))
    );
    assert_eq!(status, "editor source image unavailable");
    let mut kept = String::from("kept");
    assert_eq!(editor_output_precheck("save", true, AppState::Editor, true, true, &mut kept), (true, None));
    assert_eq!(kept, "kept");
}

#[test]
fn output_is_drawn_again_when_needed() {
    assert!(!should_render_output(false, false, true));
    assert!(should_render_output(true, false, true));
    assert!(should_render_output(false, true, true));
    assert!(should_render_output(false, false, false));
}

#[test]
fn render_failure_messages_name_the_action() {
    let (status, toast) = render_failure_messages("copy", "disk full");
    assert_eq!(status, "editor render failed before copy: disk full");
    assert_eq!(toast, "Render failed: disk full");
}

#[test]
fn output_crop_prefers_pending_then_topmost_crop() {
    let mut tools = EditorTools::new();
    assert_eq!(output_crop_region(&tools, None), None);
    let first = tools.add_crop_in_bounds(ToolPoint::new(0, 0), ToolPoint::new(40, 40), 100, 100).unwrap();
    let second = tools.add_crop_in_bounds(ToolPoint::new(20, 20), ToolPoint::new(60, 50), 100, 100).unwrap();
    assert_ne!(first, second);
    let chosen = output_crop_region(&tools, None).unwrap();
    assert_eq!(chosen.id, second);
    let pending = crop(1, 2, 3, 4);
    assert_eq!(output_crop_region(&tools, Some(pending)), Some(pending));
}

#[test]
fn output_crop_rect_stays_on_the_image() {
    assert_eq!(output_crop_rect(100, 80, crop(10, 20, 30, 40)), (10, 20, 30, 40));
    assert_eq!(output_crop_rect(100, 80, crop(-5, 200, 500, 0)), (0, 79, 100, 1));
    assert_eq!(output_crop_rect(0, 0, crop(3, 3, 3, 3)), (0, 0, 1, 1));
    assert_eq!(output_crop_rect(100, 80, crop(90, 70, u32::MAX, u32::MAX)), (90, 70, 10, 10));
}

#[test]
fn editor_output_outcome_reports_save_copy_and_failures() {
    let saved = editor_output_outcome(EditorAction::Save, Ok(EditorEvent::Save { capture_id: "c1".to_string() }));
    assert!(saved.succeeded && saved.clear_unsaved);
    assert_eq!(saved.status_message, "editor saved capture c1");
    assert_eq!(saved.toast_message.as_deref(), Some("Saved c1"));

    let copied = editor_output_outcome(EditorAction::Copy, Ok(EditorEvent::Copy { capture_id: "c2".to_string() }));
    assert!(copied.succeeded && !copied.clear_unsaved);
    assert_eq!(copied.status_message, "editor copied capture c2");
    assert_eq!(copied.toast_message.as_deref(), Some("Copied c2"));

    let odd = editor_output_outcome(EditorAction::Save, Ok(EditorEvent::Copy { capture_id: "c3".to_string() }));
    assert!(!odd.succeeded);
    let shown = format!("{:?}", EditorEvent::Copy { capture_id: "c3".to_string() });
    assert_eq!(odd.status_message, format!("editor save produced {shown}"));
    assert_eq!(odd.toast_message, Some(format!("Save produced {shown}")));

    let failed = editor_output_outcome(
        EditorAction::Copy,
        Err(EditorActionError::ClipboardError {
            operation: "copy",
            capture_id: "c4".to_string(),
            source: ClipboardError::DisplayUnavailable,
        }),
    );
    assert!(!failed.succeeded);
    assert_eq!(
        failed.status_message,
        "editor copy failed: clipboard error while copy c4: failed to access default display for clipboard operations"
    );
    let store_failed = editor_output_outcome(
        EditorAction::Save,
        Err(EditorActionError::StorageError {
            operation: "save",
            capture_id: "c5".to_string(),
            source: StorageError { message: "no space".to_string() },
        }),
    );
    assert_eq!(store_failed.toast_message.as_deref(), Some("Save failed: storage error while save c5: no space"));

    let close = editor_output_outcome(
        EditorAction::CloseRequested,
        Ok(EditorEvent::CloseRequested { capture_id: "c6".to_string() }),
    );
    assert!(!close.succeeded);
    assert_eq!(close.status_message, "unsupported editor output action: close");
    assert_eq!(close.toast_message, None);
}
