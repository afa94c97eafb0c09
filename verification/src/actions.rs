//! Carrying out a preview or editor request on a capture through the storage and the
//! clipboard. Which backend a request uses, and which event or error it ends in, is decided
//! here; whether the backend succeeds is up to the backend.

use vstd::prelude::*;

use crate::capture::flow::CaptureArtifact;
use crate::chars::copy_text;
use crate::clipboard::{ClipboardBackend, ClipboardError};
use crate::editor::{EditorAction, EditorActionError, EditorEvent};
use crate::preview::{PreviewAction, PreviewActionError, PreviewEvent};
use crate::storage::{CaptureStorage, StorageError};

verus! {

/// `e` is the event of `action` for the capture `id`.
pub open spec fn spec_is_editor_event(e: EditorEvent, action: EditorAction, id: Seq<char>) -> bool {
    match (action, e) {
        (EditorAction::Save, EditorEvent::Save { capture_id }) => capture_id@ == id,
        (EditorAction::Copy, EditorEvent::Copy { capture_id }) => capture_id@ == id,
        (EditorAction::CloseRequested, EditorEvent::CloseRequested { capture_id }) => capture_id@ == id,
        _ => false,
    }
}

/// `e` is the event of `action` for the capture `id`.
pub open spec fn spec_is_preview_event(e: PreviewEvent, action: PreviewAction, id: Seq<char>) -> bool {
    match (action, e) {
        (PreviewAction::Save, PreviewEvent::Save { capture_id }) => capture_id@ == id,
        (PreviewAction::Copy, PreviewEvent::Copy { capture_id }) => capture_id@ == id,
        (PreviewAction::Edit, PreviewEvent::Edit { capture_id }) => capture_id@ == id,
        (PreviewAction::Delete, PreviewEvent::Delete { capture_id }) => capture_id@ == id,
        (PreviewAction::Close, PreviewEvent::Close { capture_id }) => capture_id@ == id,
        _ => false,
    }
}

/// How an editor request ends given what its storage call came to: the request's event for
/// the capture `id` when it succeeded, else a storage error of `operation` on `id` carrying
/// the storage's error.
pub open spec fn spec_editor_storage_outcome<T>(
    r: Result<EditorEvent, EditorActionError>,
    action: EditorAction,
    id: Seq<char>,
    outcome: Result<T, StorageError>,
    operation: Seq<char>,
) -> bool {
    match outcome {
        Ok(_) => r is Ok && spec_is_editor_event(r->Ok_0, action, id),
        Err(e) => r matches Err(EditorActionError::StorageError { operation: op, capture_id, source })
            && op@ == operation && capture_id@ == id && source == e,
    }
}

/// How an editor request ends given what its clipboard call came to.
pub open spec fn spec_editor_clipboard_outcome(
    r: Result<EditorEvent, EditorActionError>,
    action: EditorAction,
    id: Seq<char>,
    outcome: Result<(), ClipboardError>,
    operation: Seq<char>,
) -> bool {
    match outcome {
        Ok(_) => r is Ok && spec_is_editor_event(r->Ok_0, action, id),
        Err(e) => r matches Err(EditorActionError::ClipboardError { operation: op, capture_id, source })
            && op@ == operation && capture_id@ == id && source == e,
    }
}

/// How a preview request ends given what its storage call came to.
pub open spec fn spec_preview_storage_outcome<T>(
    r: Result<PreviewEvent, PreviewActionError>,
    action: PreviewAction,
    id: Seq<char>,
    outcome: Result<T, StorageError>,
    operation: Seq<char>,
) -> bool {
    match outcome {
        Ok(_) => r is Ok && spec_is_preview_event(r->Ok_0, action, id),
        Err(e) => r matches Err(PreviewActionError::StorageError { operation: op, capture_id, source })
            && op@ == operation && capture_id@ == id && source == e,
    }
}

/// How a preview request ends given what its clipboard call came to.
pub open spec fn spec_preview_clipboard_outcome(
    r: Result<PreviewEvent, PreviewActionError>,
    action: PreviewAction,
    id: Seq<char>,
    outcome: Result<(), ClipboardError>,
    operation: Seq<char>,
) -> bool {
    match outcome {
        Ok(_) => r is Ok && spec_is_preview_event(r->Ok_0, action, id),
        Err(e) => r matches Err(PreviewActionError::ClipboardError { operation: op, capture_id, source })
            && op@ == operation && capture_id@ == id && source == e,
    }
}

/// Carries out an editor request: saving goes through the storage, copying copies the
/// capture's file through the clipboard, and a close request needs neither.
pub fn execute_editor_action<S: CaptureStorage, C: ClipboardBackend>(
    artifact: &CaptureArtifact,
    action: EditorAction,
    storage: &S,
    clipboard: &C,
) -> (r: Result<EditorEvent, EditorActionError>)
    ensures
        action == EditorAction::Save ==> exists|saved: Result<String, StorageError>|
            #[trigger] storage.spec_saved(*artifact, saved) && spec_editor_storage_outcome(
                r,
                action,
                artifact.capture_id@,
                saved,
                "save"@,
            ),
        action == EditorAction::Copy ==> exists|copied: Result<(), ClipboardError>|
            #[trigger] clipboard.spec_copied(artifact.temp_path@, copied) && spec_editor_clipboard_outcome(
                r,
                action,
                artifact.capture_id@,
                copied,
                "copy"@,
            ),
        action == EditorAction::CloseRequested ==> (r is Ok && spec_is_editor_event(
            r->Ok_0,
            action,
            artifact.capture_id@,
        )),
{
    let capture_id = copy_text(artifact.capture_id.as_str());
    match action {
        EditorAction::Save => match storage.save_capture(artifact) {
            Ok(_) => Ok(EditorEvent::Save { capture_id }),
            Err(err) => Err(EditorActionError::StorageError { operation: "save", capture_id, source: err }),
        },
        EditorAction::Copy => match clipboard.copy(artifact.temp_path.as_str()) {
            Ok(()) => Ok(EditorEvent::Copy { capture_id }),
            Err(err) => Err(EditorActionError::ClipboardError { operation: "copy", capture_id, source: err }),
        },
        EditorAction::CloseRequested => Ok(EditorEvent::CloseRequested { capture_id }),
    }
}

/// Carries out a preview request: saving goes through the storage, copying copies the
/// capture's file through the clipboard, deleting discards the capture's session files,
/// and editing or closing needs no backend.
pub fn execute_preview_action<S: CaptureStorage, C: ClipboardBackend>(
    artifact: &CaptureArtifact,
    action: PreviewAction,
    storage: &S,
    clipboard: &C,
) -> (r: Result<PreviewEvent, PreviewActionError>)
    ensures
        action == PreviewAction::Save ==> exists|saved: Result<String, StorageError>|
            #[trigger] storage.spec_saved(*artifact, saved) && spec_preview_storage_outcome(
                r,
                action,
                artifact.capture_id@,
                saved,
                "save"@,
            ),
        action == PreviewAction::Copy ==> exists|copied: Result<(), ClipboardError>|
            #[trigger] clipboard.spec_copied(artifact.temp_path@, copied) && spec_preview_clipboard_outcome(
                r,
                action,
                artifact.capture_id@,
                copied,
                "copy"@,
            ),
        action == PreviewAction::Delete ==> exists|discarded: Result<(), StorageError>|
            #[trigger] storage.spec_discarded(artifact.capture_id@, discarded) && spec_preview_storage_outcome(
                r,
                action,
                artifact.capture_id@,
                discarded,
                "delete"@,
            ),
        action == PreviewAction::Edit || action == PreviewAction::Close ==> (r is Ok && spec_is_preview_event(
            r->Ok_0,
            action,
            artifact.capture_id@,
        )),
{
    let capture_id = copy_text(artifact.capture_id.as_str());
    match action {
        PreviewAction::Save => match storage.save_capture(artifact) {
            Ok(_) => Ok(PreviewEvent::Save { capture_id }),
            Err(err) => Err(PreviewActionError::StorageError { operation: "save", capture_id, source: err }),
        },
        PreviewAction::Copy => match clipboard.copy(artifact.temp_path.as_str()) {
            Ok(()) => Ok(PreviewEvent::Copy { capture_id }),
            Err(err) => Err(PreviewActionError::ClipboardError { operation: "copy", capture_id, source: err }),
        },
        PreviewAction::Edit => Ok(PreviewEvent::Edit { capture_id }),
        PreviewAction::Delete => match storage.discard_session_artifacts(artifact.capture_id.as_str()) {
            Ok(()) => Ok(PreviewEvent::Delete { capture_id }),
            Err(err) => Err(PreviewActionError::StorageError { operation: "delete", capture_id, source: err }),
        },
        PreviewAction::Close => Ok(PreviewEvent::Close { capture_id }),
    }
}

} // verus!
