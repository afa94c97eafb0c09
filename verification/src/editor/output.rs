//! Saving or copying the edited image: what must hold before it runs, whether the image
//! file has to be drawn again, which part of the image is written, and what the user is
//! told afterwards.

use vstd::prelude::*;

use super::render::{action_metadata, spec_action_metadata};
use super::tools::{spec_crops, CropElement, EditorTools};
use super::{spec_editor_action_error_text, spec_editor_event_debug, EditorAction, EditorActionError, EditorEvent};
use crate::arith::{clamp_i32, spec_clamp, spec_max, spec_min};
use crate::chars::{append_chars, chars_of, copy_text, string_from_chars};
use crate::state::AppState;

verus! {

fn joined(a: &str, b: &str, c: &str) -> (s: String)
    ensures
        s@ == a@ + b@ + c@,
{
    let mut v = chars_of(a);
    append_chars(&mut v, &chars_of(b));
    append_chars(&mut v, &chars_of(c));
    string_from_chars(&v)
}

/// Whether an editor save or copy may run: it needs an active capture, the editor state,
/// the storage service and the source image. Otherwise the status says which is missing,
/// and for a missing source image a toast is shown too.
pub fn editor_output_precheck(
    action_label: &str,
    has_active_capture: bool,
    state: AppState,
    storage_available: bool,
    source_available: bool,
    status: &mut String,
) -> (r: (bool, Option<&'static str>))
    ensures
        r.0 == (has_active_capture && state == AppState::Editor && storage_available && source_available),
        !has_active_capture ==> final(status)@ == action_label@ + " requires an active capture"@ && r.1 is None,
        has_active_capture && state != AppState::Editor ==> final(status)@ == "editor "@ + action_label@
            + " requires editor state"@ && r.1 is None,
        has_active_capture && state == AppState::Editor && !storage_available ==> final(status)@
            == "storage service unavailable"@ && r.1 is None,
        has_active_capture && state == AppState::Editor && storage_available && !source_available ==> (final(status)@
            == "editor source image unavailable"@ && r.1 == Some("Source image unavailable")),
        r.0 ==> final(status)@ == old(status)@ && r.1 is None,
{
    if !has_active_capture {
        let mut v = chars_of(action_label);
        append_chars(&mut v, &chars_of(" requires an active capture"));
        *status = string_from_chars(&v);
        return (false, None);
    }
    let in_editor = match state {
        AppState::Editor => true,
        _ => false,
    };
    if !in_editor {
        *status = joined("editor ", action_label, " requires editor state");
        return (false, None);
    }
    if !storage_available {
        *status = copy_text("storage service unavailable");
        return (false, None);
    }
    if !source_available {
        *status = copy_text("editor source image unavailable");
        return (false, Some("Source image unavailable"));
    }
    (true, None)
}

/// Whether the image file has to be drawn again before it is saved or copied: when a crop
/// is pending, when there are unsaved edits, or when the file is gone.
pub fn should_render_output(has_pending_crop: bool, has_unsaved_changes: bool, temp_file_exists: bool) -> (b: bool)
    ensures
        b == (has_pending_crop || has_unsaved_changes || !temp_file_exists),
{
    has_pending_crop || has_unsaved_changes || !temp_file_exists
}

/// The status and toast after drawing the image failed before a save or copy.
pub fn render_failure_messages(action_label: &str, error: &str) -> (m: (String, String))
    ensures
        m.0@ == "editor render failed before "@ + action_label@ + ": "@ + error@,
        m.1@ == "Render failed: "@ + error@,
{
    let mut s = chars_of("editor render failed before ");
    append_chars(&mut s, &chars_of(action_label));
    append_chars(&mut s, &chars_of(": "));
    append_chars(&mut s, &chars_of(error));
    let mut t = chars_of("Render failed: ");
    append_chars(&mut t, &chars_of(error));
    (string_from_chars(&s), string_from_chars(&t))
}

/// The crop the written image is cut to: the pending crop, else the topmost crop box.
pub open spec fn spec_output_crop_region(crops: Seq<CropElement>, pending_crop: Option<CropElement>) -> Option<
    CropElement,
> {
    match pending_crop {
        Some(crop) => Some(crop),
        None => if crops.len() == 0 {
            None
        } else {
            Some(crops.last())
        },
    }
}

pub fn output_crop_region(tools: &EditorTools, pending_crop: Option<CropElement>) -> (c: Option<CropElement>)
    ensures
        c == spec_output_crop_region(spec_crops(tools.spec_objects()), pending_crop),
{
    match pending_crop {
        Some(crop) => Some(crop),
        None => {
            let crops = tools.crops();
            if crops.len() == 0 {
                None
            } else {
                Some(crops[crops.len() - 1])
            }
        },
    }
}

/// The part `(x, y, width, height)` of an image of the given size (each side taken as at
/// least 1) written for `crop`: its corner moved onto the image, and each side kept between
/// 1 and what is left of the image from there.
pub open spec fn spec_output_crop_rect(image_width: i32, image_height: i32, crop: CropElement) -> (int, int, int, int) {
    let w = spec_max(image_width as int, 1);
    let h = spec_max(image_height as int, 1);
    let x = spec_clamp(crop.x as int, 0, w - 1);
    let y = spec_clamp(crop.y as int, 0, h - 1);
    (
        x,
        y,
        spec_clamp(spec_min(crop.width as int, i32::MAX as int), 1, w - x),
        spec_clamp(spec_min(crop.height as int, i32::MAX as int), 1, h - y),
    )
}

pub fn output_crop_rect(image_width: i32, image_height: i32, crop: CropElement) -> (r: (i32, i32, i32, i32))
    ensures
        (r.0 as int, r.1 as int, r.2 as int, r.3 as int) == spec_output_crop_rect(image_width, image_height, crop),
        0 <= r.0 && r.0 + r.2 <= spec_max(image_width as int, 1) && r.2 >= 1,
        0 <= r.1 && r.1 + r.3 <= spec_max(image_height as int, 1) && r.3 >= 1,
{
    let w = if image_width >= 1 { image_width } else { 1 };
    let h = if image_height >= 1 { image_height } else { 1 };
    let x = clamp_i32(crop.x, 0, w - 1);
    let y = clamp_i32(crop.y, 0, h - 1);
    let cw: i32 = if crop.width > 2147483647u32 { 2147483647i32 } else { crop.width as i32 };
    let ch: i32 = if crop.height > 2147483647u32 { 2147483647i32 } else { crop.height as i32 };
    (x, y, clamp_i32(cw, 1, w - x), clamp_i32(ch, 1, h - y))
}

/// What the user is told after an editor save or copy: whether it succeeded, whether the
/// edits now count as saved, the status line, and the toast, if any.
#[derive(Debug, Clone, PartialEq, Eq)]
pub struct EditorOutputOutcome {
    pub succeeded: bool,
    pub clear_unsaved: bool,
    pub status_message: String,
    pub toast_message: Option<String>,
}

/// `o` is what an editor output request of `action` ending in `result` reports: a save or
/// copy that produced its own event succeeds (a save also marks the edits saved), any other
/// event or an error is reported as a failure, and a close request is no output request.
pub open spec fn spec_editor_output_outcome(
    action: EditorAction,
    result: Result<EditorEvent, EditorActionError>,
    o: EditorOutputOutcome,
) -> bool {
    match spec_action_metadata(action) {
        None => {
            &&& !o.succeeded
            &&& !o.clear_unsaved
            &&& o.status_message@ == "unsupported editor output action: close"@
            &&& o.toast_message is None
        },
        Some((label, title)) => match result {
            Ok(EditorEvent::Save { capture_id }) if action == EditorAction::Save => {
                &&& o.succeeded
                &&& o.clear_unsaved
                &&& o.status_message@ == "editor saved capture "@ + capture_id@
                &&& o.toast_message matches Some(t) && t@ == "Saved "@ + capture_id@
            },
            Ok(EditorEvent::Copy { capture_id }) if action == EditorAction::Copy => {
                &&& o.succeeded
                &&& !o.clear_unsaved
                &&& o.status_message@ == "editor copied capture "@ + capture_id@
                &&& o.toast_message matches Some(t) && t@ == "Copied "@ + capture_id@
            },
            Ok(other) => {
                &&& !o.succeeded
                &&& !o.clear_unsaved
                &&& o.status_message@ == "editor "@ + label@ + " produced "@ + spec_editor_event_debug(other)
                &&& o.toast_message matches Some(t) && t@ == title@ + " produced "@ + spec_editor_event_debug(other)
            },
            Err(err) => {
                &&& !o.succeeded
                &&& !o.clear_unsaved
                &&& o.status_message@ == "editor "@ + label@ + " failed: "@ + spec_editor_action_error_text(err)
                &&& o.toast_message matches Some(t) && t@ == title@ + " failed: "@ + spec_editor_action_error_text(
                    err,
                )
            },
        },
    }
}

fn saved_or_copied(lead: &str, toast_lead: &str, capture_id: &str, saved: bool) -> (o: EditorOutputOutcome)
    ensures
        o.succeeded,
        o.clear_unsaved == saved,
        o.status_message@ == lead@ + capture_id@,
        o.toast_message matches Some(t) && t@ == toast_lead@ + capture_id@,
{
    let mut s = chars_of(lead);
    append_chars(&mut s, &chars_of(capture_id));
    let mut t = chars_of(toast_lead);
    append_chars(&mut t, &chars_of(capture_id));
    EditorOutputOutcome {
        succeeded: true,
        clear_unsaved: saved,
        status_message: string_from_chars(&s),
        toast_message: Some(string_from_chars(&t)),
    }
}

fn output_failure(label: &str, title: &str, middle: &str, detail: &str) -> (o: EditorOutputOutcome)
    ensures
        !o.succeeded,
        !o.clear_unsaved,
        o.status_message@ == "editor "@ + label@ + middle@ + detail@,
        o.toast_message matches Some(t) && t@ == title@ + middle@ + detail@,
{
    let mut s = chars_of("editor ");
    append_chars(&mut s, &chars_of(label));
    append_chars(&mut s, &chars_of(middle));
    append_chars(&mut s, &chars_of(detail));
    let toast = joined(title, middle, detail);
    EditorOutputOutcome {
        succeeded: false,
        clear_unsaved: false,
        status_message: string_from_chars(&s),
        toast_message: Some(toast),
    }
}

/// The report after an editor save or copy ran through the backends.
pub fn editor_output_outcome(action: EditorAction, result: Result<EditorEvent, EditorActionError>) -> (o: EditorOutputOutcome)
    ensures
        spec_editor_output_outcome(action, result, o),
{
    let (label, title) = match action_metadata(action) {
        Some(m) => m,
        None => {
            return EditorOutputOutcome {
                succeeded: false,
                clear_unsaved: false,
                status_message: copy_text("unsupported editor output action: close"),
                toast_message: None,
            };
        },
    };
    match result {
        Ok(event) => {
            let is_save = match action {
                EditorAction::Save => true,
                _ => false,
            };
            let is_copy = match action {
                EditorAction::Copy => true,
                _ => false,
            };
            match &event {
                EditorEvent::Save { capture_id } if is_save => {
                    return saved_or_copied("editor saved capture ", "Saved ", capture_id.as_str(), true);
                },
                EditorEvent::Copy { capture_id } if is_copy => {
                    return saved_or_copied("editor copied capture ", "Copied ", capture_id.as_str(), false);
                },
                _ => {},
            }
            let shown = event.debug_text();
            output_failure(label, title, " produced ", shown.as_str())
        },
        Err(err) => {
            let shown = err.describe();
            output_failure(label, title, " failed: ", shown.as_str())
        },
    }
}

} // verus!
