use std::cell::RefCell;

use chalkak::actions::{execute_editor_action, execute_preview_action};
use chalkak::capture::flow::CaptureArtifact;
use chalkak::clipboard::{
    clipboard_text_offers, gnome_copied_files_payload, is_png_file_name, uri_list_payload, ClipboardBackend,
    ClipboardError,
};
use chalkak::editor::{EditorAction, EditorActionError, EditorEvent};
use chalkak::preview::{PreviewAction, PreviewActionError, PreviewEvent};
use chalkak::storage::{CaptureStorage, StorageError};

#[derive(Default)]
struct FakeClipboard {
    copied_paths: RefCell<Vec<String>>,
    fail: bool,
}

impl ClipboardBackend for FakeClipboard {
    fn copy_png_file(&self, path: &str) -> Result<(), ClipboardError> {
        self.copy(path)
    }

    fn copy(&self, path: &str) -> Result<(), ClipboardError> {
        if self.fail {
            return Err(ClipboardError::CommandFailed { status: "exit status 1".to_string() });
        }
        self.copied_paths.borrow_mut().push(path.to_string());
        Ok(())
    }
}

#[derive(Default)]
struct FakeStorage {
    save_requests: RefCell<Vec<String>>,
    discarded: RefCell<Vec<String>>,
    fail: bool,
}

impl CaptureStorage for FakeStorage {
    fn save_capture(&self, artifact: &CaptureArtifact) -> Result<String, StorageError> {
        if self.fail {
            return Err(StorageError { message: "disk full".to_string() });
        }
        self.save_requests.borrow_mut().push(artifact.capture_id.clone());
        Ok(artifact.temp_path.clone())
    }

    fn discard_session_artifacts(&self, capture_id: &str) -> Result<(), StorageError> {
        if self.fail {
            return Err(StorageError { message: "read-only".to_string() });
        }
        self.discarded.borrow_mut().push(capture_id.to_string());
        Ok(())
    }
}

fn artifact(id: &str) -> CaptureArtifact {
    CaptureArtifact {
        capture_id: id.to_string(),
        temp_path: "/tmp/test.png".to_string(),
        width: 320,
        height: 200,
        screen_x: 0,
        screen_y: 0,
        screen_width: 320,
        screen_height: 200,
        created_at: 0,
    }
}

#[test]
fn editor_action_save_calls_storage_save() {
    let storage = FakeStorage::default();
    let clipboard = FakeClipboard::default();
    let current = artifact("editor-save");

    let event = execute_editor_action(&current, EditorAction::Save, &storage, &clipboard)
        .expect("save should succeed");

    assert_eq!(event, EditorEvent::Save { capture_id: "editor-save".to_string() });
    assert_eq!(storage.save_requests.borrow().as_slice(), &["editor-save".to_string()]);
    assert!(clipboard.copied_paths.borrow().is_empty());
}

#[test]
fn editor_action_copy_calls_clipboard() {
    let storage = FakeStorage::default();
    let clipboard = FakeClipboard::default();
    let current = artifact("editor-copy");

    let event = execute_editor_action(&current, EditorAction::Copy, &storage, &clipboard)
        .expect("copy should succeed");

    assert_eq!(event, EditorEvent::Copy { capture_id: "editor-copy".to_string() });
    assert_eq!(clipboard.copied_paths.borrow().as_slice(), &["/tmp/test.png".to_string()]);
    assert!(storage.save_requests.borrow().is_empty());
}

#[test]
fn editor_action_close_requested_has_no_side_effects() {
    let storage = FakeStorage::default();
    let clipboard = FakeClipboard::default();
    let current = artifact("editor-close");

    let event = execute_editor_action(&current, EditorAction::CloseRequested, &storage, &clipboard)
        .expect("close should succeed");

    assert_eq!(event, EditorEvent::CloseRequested { capture_id: "editor-close".to_string() });
    assert!(storage.save_requests.borrow().is_empty());
    assert!(storage.discarded.borrow().is_empty());
    assert!(clipboard.copied_paths.borrow().is_empty());
}

#[test]
fn preview_action_save_calls_storage_save() {
    let storage = FakeStorage::default();
    let clipboard = FakeClipboard::default();
    let current = artifact("capture-save");

    let event = execute_preview_action(&current, PreviewAction::Save, &storage, &clipboard)
        .expect("save should succeed");

    assert_eq!(event, PreviewEvent::Save { capture_id: "capture-save".to_string() });
    assert_eq!(storage.save_requests.borrow().as_slice(), &["capture-save".to_string()]);
    assert!(clipboard.copied_paths.borrow().is_empty());
}

#[test]
fn preview_action_copy_calls_clipboard() {
    let storage = FakeStorage::default();
    let clipboard = FakeClipboard::default();
    let current = artifact("capture-copy");

    let event = execute_preview_action(&current, PreviewAction::Copy, &storage, &clipboard)
        .expect("copy should succeed");

    assert_eq!(event, PreviewEvent::Copy { capture_id: "capture-copy".to_string() });
    assert_eq!(clipboard.copied_paths.borrow().as_slice(), &["/tmp/test.png".to_string()]);
    assert!(storage.save_requests.borrow().is_empty());
}

#[test]
fn preview_action_edit_and_close_no_side_effects() {
    let storage = FakeStorage::default();
    let clipboard = FakeClipboard::default();
    let current = artifact("capture-edit-close");

    let edit_event = execute_preview_action(&current, PreviewAction::Edit, &storage, &clipboard)
        .expect("edit should succeed");
    let close_event = execute_preview_action(&current, PreviewAction::Close, &storage, &clipboard)
        .expect("close should succeed");

    assert_eq!(edit_event, PreviewEvent::Edit { capture_id: "capture-edit-close".to_string() });
    assert_eq!(close_event, PreviewEvent::Close { capture_id: "capture-edit-close".to_string() });
    assert!(storage.save_requests.borrow().is_empty());
    assert!(storage.discarded.borrow().is_empty());
    assert!(clipboard.copied_paths.borrow().is_empty());
}

#[test]
fn preview_action_delete_discards_artifact() {
    let storage = FakeStorage::default();
    let clipboard = FakeClipboard::default();
    let current = artifact("capture-delete");

    let event = execute_preview_action(&current, PreviewAction::Delete, &storage, &clipboard)
        .expect("delete should succeed");

    assert_eq!(event, PreviewEvent::Delete { capture_id: "capture-delete".to_string() });
    assert_eq!(storage.discarded.borrow().as_slice(), &["capture-delete".to_string()]);
    assert!(storage.save_requests.borrow().is_empty());
    assert!(clipboard.copied_paths.borrow().is_empty());
}

#[test]
fn failing_backends_name_operation_and_capture() {
    let storage = FakeStorage { fail: true, ..FakeStorage::default() };
    let clipboard = FakeClipboard { fail: true, ..FakeClipboard::default() };
    let current = artifact("capture-7");

    let err = execute_preview_action(&current, PreviewAction::Delete, &storage, &clipboard).unwrap_err();
    assert!(matches!(err, PreviewActionError::StorageError { operation: "delete", .. }));
    assert_eq!(err.describe(), "storage error while delete capture-7: read-only");

    let err = execute_preview_action(&current, PreviewAction::Copy, &storage, &clipboard).unwrap_err();
    assert_eq!(
        err.describe(),
        "clipboard error while copy capture-7: wl-copy exited with non-zero status: exit status 1"
    );

    let err = execute_editor_action(&current, EditorAction::Save, &storage, &clipboard).unwrap_err();
    assert!(matches!(err, EditorActionError::StorageError { operation: "save", .. }));
    assert_eq!(err.describe(), "storage error while save capture-7: disk full");

    let close = execute_editor_action(&current, EditorAction::CloseRequested, &storage, &clipboard);
    assert_eq!(close.unwrap(), EditorEvent::CloseRequested { capture_id: "capture-7".to_string() });
}

#[test]
fn command_error_contains_command_name() {
    let err = ClipboardError::CommandFailed { status: "exit status 1".to_string() };
    assert!(err.describe().contains("wl-copy"));
}

#[test]
fn clipboard_payloads_frame_the_uri() {
    let uri = "file:///tmp/chalkak%20shot.png";
    assert_eq!(uri_list_payload(uri), "file:///tmp/chalkak%20shot.png\r\n");
    assert_eq!(gnome_copied_files_payload(uri), "copy\nfile:///tmp/chalkak%20shot.png");
}

#[test]
fn clipboard_text_offers_list_every_format_in_order() {
    let offers = clipboard_text_offers("file:///tmp/a.png", "/tmp/a.png");
    let kinds: Vec<&str> = offers.iter().map(|(mime, _)| *mime).collect();
    assert_eq!(
        kinds,
        vec!["x-special/gnome-copied-files", "text/uri-list", "text/plain;charset=utf-8", "text/plain"]
    );
    assert_eq!(offers[0].1, "copy\nfile:///tmp/a.png");
    assert_eq!(offers[1].1, "file:///tmp/a.png\r\n");
    assert_eq!(offers[2].1, "/tmp/a.png");
    assert_eq!(offers[3].1, "/tmp/a.png");
}

#[test]
fn clipboard_error_texts() {
    let err = ClipboardError::OpenFile { path: "/tmp/x.png".to_string(), message: "denied".to_string() };
    assert_eq!(err.describe(), "failed to open file /tmp/x.png: denied");
    assert_eq!(
        ClipboardError::DisplayUnavailable.describe(),
        "failed to access default display for clipboard operations"
    );
    let err = ClipboardError::CommandIo { command: "current_dir".to_string(), message: "gone".to_string() };
    assert_eq!(err.describe(), "failed to run wl-copy command: current_dir");
}

fn file_name(path: &str) -> String {
    std::path::Path::new(path).file_name().unwrap().to_string_lossy().into_owned()
}

#[test]
fn is_png_path_detects_case_insensitive_png_extension() {
    assert!(is_png_file_name(&file_name("/tmp/capture.PNG")));
    assert!(is_png_file_name(&file_name("/tmp/capture.png")));
    assert!(!is_png_file_name(&file_name("/tmp/capture.jpg")));
    assert!(!is_png_file_name(".png"));
    assert!(is_png_file_name("a.pNg"));
    assert!(!is_png_file_name("png"));
}
