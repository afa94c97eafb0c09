//! Decisions of the application shell: when text input runs, when a headless start may end,
//! how captures and results are reported, and state transitions with a status line.

use vstd::prelude::*;

use crate::chars::{append_chars, chars_of, copy_text, string_from_chars};
use crate::editor::tools::ToolKind;
use crate::editor::EditorInputMode;
use crate::numbers::{decimal_chars, spec_decimal};
use crate::preview::{
    spec_preview_action_error_text, spec_preview_event_debug, PreviewAction, PreviewActionError, PreviewEvent,
};
use crate::state::machine::spec_next_state;
use crate::state::{AppEvent, AppState, StateMachine};
use crate::text::{join_lines, spec_char_vecs, spec_join_lines};

verus! {

/// How switching tools treats keyboard text input.
#[derive(Debug, Clone, Copy, PartialEq, Eq, Structural)]
pub enum TextInputActivation {
    Auto,
    ForceOn,
    ForceOff,
}

/// Whether text input runs after selecting `selected_tool`: by the tool under `Auto`, else as
/// forced.
pub fn text_input_should_be_active(selected_tool: ToolKind, activation: TextInputActivation) -> (b:
    bool)
    ensures
        b == match activation {
            TextInputActivation::Auto => selected_tool == ToolKind::Text,
            TextInputActivation::ForceOn => true,
            TextInputActivation::ForceOff => false,
        },
{
    match activation {
        TextInputActivation::Auto => match selected_tool {
            ToolKind::Text => true,
            _ => false,
        },
        TextInputActivation::ForceOn => true,
        TextInputActivation::ForceOff => false,
    }
}

/// Whether a start without windows may stop holding the application open: the hold is on,
/// the startup capture is done, the application is idle, and no capture or window is left.
pub fn should_release_headless_startup_hold(
    hold_active: bool,
    startup_capture_completed: bool,
    state: AppState,
    has_active_capture: bool,
    preview_window_count: usize,
    editor_window_open: bool,
) -> (b: bool)
    ensures
        b == (hold_active && startup_capture_completed && state == AppState::Idle
            && !has_active_capture && preview_window_count == 0 && !editor_window_open),
{
    let idle = match state {
        AppState::Idle => true,
        _ => false,
    };
    hold_active && startup_capture_completed && idle && !has_active_capture
        && preview_window_count == 0 && !editor_window_open
}

/// `n` right-aligned in two columns.
pub open spec fn spec_right_aligned_2(n: nat) -> Seq<char> {
    if n < 10 {
        seq![' '] + spec_decimal(n)
    } else {
        spec_decimal(n)
    }
}

/// One line per capture id, numbered from one.
pub open spec fn spec_capture_id_lines(ids: Seq<Seq<char>>) -> Seq<Seq<char>> {
    Seq::new(ids.len(), |i: int| spec_right_aligned_2((i + 1) as nat) + ". "@ + ids[i])
}

/// The capture ids as listed in the launchpad: `IDs: none`, or `IDs:` and a numbered line
/// per id.
pub open spec fn spec_capture_ids_display(ids: Seq<Seq<char>>) -> Seq<char> {
    if ids.len() == 0 {
        "IDs: none"@
    } else {
        "IDs:\n"@ + spec_join_lines(spec_capture_id_lines(ids))
    }
}

pub fn format_capture_ids_for_display(ids: &Vec<String>) -> (s: String)
    requires
        ids.len() < usize::MAX,
    ensures
        s@ == spec_capture_ids_display(ids@.map_values(|x: String| x@)),
{
    let ghost views = ids@.map_values(|x: String| x@);
    if ids.len() == 0 {
        return string_from_chars(&chars_of("IDs: none"));
    }
    let ghost lines = spec_capture_id_lines(views);
    let mut parts: Vec<Vec<char>> = Vec::new();
    let mut i: usize = 0;
    while i < ids.len()
        invariant
            0 <= i <= ids.len() < usize::MAX,
            views == ids@.map_values(|x: String| x@),
            lines == spec_capture_id_lines(views),
            spec_char_vecs(parts@) == lines.take(i as int),
        decreases ids.len() - i,
    {
        let n: usize = i + 1;
        let mut line: Vec<char> = Vec::new();
        if n < 10 {
            line.push(' ');
        }
        append_chars(&mut line, &decimal_chars(n as u128));
        append_chars(&mut line, &chars_of(". "));
        append_chars(&mut line, &chars_of(ids[i].as_str()));
        proof {
            assert(views[i as int] == ids@[i as int]@);
            assert(line@ =~= lines[i as int]);
        }
        let ghost prev = spec_char_vecs(parts@);
        parts.push(line);
        proof {
            assert(spec_char_vecs(parts@) =~= prev.push(line@));
            assert(lines.take(i + 1) =~= lines.take(i as int).push(lines[i as int]));
        }
        i = i + 1;
    }
    assert(lines.take(i as int) =~= lines);
    let mut out = chars_of("IDs:\n");
    append_chars(&mut out, &join_lines(&parts));
    string_from_chars(&out)
}

/// The words in which a preview action is reported.
#[derive(Debug, Clone, Copy)]
pub struct PreviewActionLabels {
    pub operation: &'static str,
    pub title: &'static str,
    pub past: &'static str,
    pub success_title: &'static str,
}

pub open spec fn spec_preview_action_labels(action: PreviewAction) -> PreviewActionLabels {
    match action {
        PreviewAction::Save => PreviewActionLabels {
            operation: "save",
            title: "Save",
            past: "saved",
            success_title: "Saved",
        },
        PreviewAction::Copy => PreviewActionLabels {
            operation: "copy",
            title: "Copy",
            past: "copied",
            success_title: "Copied",
        },
        PreviewAction::Edit => PreviewActionLabels {
            operation: "edit",
            title: "Edit",
            past: "edited",
            success_title: "Edited",
        },
        PreviewAction::Delete => PreviewActionLabels {
            operation: "delete",
            title: "Delete",
            past: "deleted",
            success_title: "Deleted",
        },
        PreviewAction::Close => PreviewActionLabels {
            operation: "close",
            title: "Close",
            past: "closed",
            success_title: "Closed",
        },
    }
}

impl PreviewActionLabels {
    pub fn for_action(action: PreviewAction) -> (l: Self)
        ensures
            l == spec_preview_action_labels(action),
    {
        match action {
            PreviewAction::Save => PreviewActionLabels {
                operation: "save",
                title: "Save",
                past: "saved",
                success_title: "Saved",
            },
            PreviewAction::Copy => PreviewActionLabels {
                operation: "copy",
                title: "Copy",
                past: "copied",
                success_title: "Copied",
            },
            PreviewAction::Edit => PreviewActionLabels {
                operation: "edit",
                title: "Edit",
                past: "edited",
                success_title: "Edited",
            },
            PreviewAction::Delete => PreviewActionLabels {
                operation: "delete",
                title: "Delete",
                past: "deleted",
                success_title: "Deleted",
            },
            PreviewAction::Close => PreviewActionLabels {
                operation: "close",
                title: "Close",
                past: "closed",
                success_title: "Closed",
            },
        }
    }
}

/// Whether copying must run on the main thread (the clipboard lives there).
pub fn requires_main_thread_preview_action(action: PreviewAction) -> (b: bool)
    ensures
        b == (action == PreviewAction::Copy),
{
    match action {
        PreviewAction::Copy => true,
        _ => false,
    }
}

/// Whether `event` reports the action asked for.
pub open spec fn spec_matches_preview_action(action: PreviewAction, event: PreviewEvent) -> bool {
    match (action, event) {
        (PreviewAction::Save, PreviewEvent::Save { .. }) => true,
        (PreviewAction::Copy, PreviewEvent::Copy { .. }) => true,
        (PreviewAction::Edit, PreviewEvent::Edit { .. }) => true,
        (PreviewAction::Delete, PreviewEvent::Delete { .. }) => true,
        (PreviewAction::Close, PreviewEvent::Close { .. }) => true,
        _ => false,
    }
}

pub fn matches_preview_action(action: PreviewAction, event: &PreviewEvent) -> (b: bool)
    ensures
        b == spec_matches_preview_action(action, *event),
{
    match (action, event) {
        (PreviewAction::Save, PreviewEvent::Save { .. }) => true,
        (PreviewAction::Copy, PreviewEvent::Copy { .. }) => true,
        (PreviewAction::Edit, PreviewEvent::Edit { .. }) => true,
        (PreviewAction::Delete, PreviewEvent::Delete { .. }) => true,
        (PreviewAction::Close, PreviewEvent::Close { .. }) => true,
        _ => false,
    }
}

pub open spec fn spec_preview_event_capture_id(event: PreviewEvent) -> Seq<char> {
    match event {
        PreviewEvent::Save { capture_id } => capture_id@,
        PreviewEvent::Copy { capture_id } => capture_id@,
        PreviewEvent::Edit { capture_id } => capture_id@,
        PreviewEvent::Delete { capture_id } => capture_id@,
        PreviewEvent::Close { capture_id } => capture_id@,
    }
}

/// The capture an event is about.
pub fn preview_event_capture_id(event: &PreviewEvent) -> (id: &str)
    ensures
        id@ == spec_preview_event_capture_id(*event),
{
    match event {
        PreviewEvent::Save { capture_id } => capture_id.as_str(),
        PreviewEvent::Copy { capture_id } => capture_id.as_str(),
        PreviewEvent::Edit { capture_id } => capture_id.as_str(),
        PreviewEvent::Delete { capture_id } => capture_id.as_str(),
        PreviewEvent::Close { capture_id } => capture_id.as_str(),
    }
}

/// What the user is told after a preview request ran: the event it produced, the status
/// line, and the toast with the capture it is shown on.
#[derive(Debug, Clone, PartialEq, Eq)]
pub struct PreviewActionUiOutcome {
    pub event: Option<PreviewEvent>,
    pub status_message: String,
    pub toast_capture_id: String,
    pub toast_message: String,
}

/// `o` is what `preview_action_ui_outcome` reports for `action` on `active_capture_id`
/// ending in `result`: for the matching event, the past tense with that event's capture;
/// for another event, what it produced, on the active capture; for an error, the failure.
pub open spec fn spec_preview_action_ui_outcome(
    action: PreviewAction,
    active_capture_id: Seq<char>,
    result: Result<PreviewEvent, PreviewActionError>,
    o: PreviewActionUiOutcome,
) -> bool {
    let labels = spec_preview_action_labels(action);
    match result {
        Ok(event) => if spec_matches_preview_action(action, event) {
            let id = spec_preview_event_capture_id(event);
            &&& o.event == Some(event)
            &&& o.status_message@ == labels.past@ + " capture "@ + id
            &&& o.toast_capture_id@ == id
            &&& o.toast_message@ == labels.success_title@ + " "@ + id
        } else {
            &&& o.event == Some(event)
            &&& o.status_message@ == labels.operation@ + " produced "@ + spec_preview_event_debug(event)
            &&& o.toast_capture_id@ == active_capture_id
            &&& o.toast_message@ == labels.title@ + " produced "@ + spec_preview_event_debug(event)
        },
        Err(err) => {
            &&& o.event is None
            &&& o.status_message@ == labels.operation@ + " failed: "@ + spec_preview_action_error_text(err)
            &&& o.toast_capture_id@ == active_capture_id
            &&& o.toast_message@ == labels.title@ + " failed: "@ + spec_preview_action_error_text(err)
        },
    }
}

fn joined(a: &str, b: &str, c: &str) -> (s: String)
    ensures
        s@ == a@ + b@ + c@,
{
    let mut v = chars_of(a);
    append_chars(&mut v, &chars_of(b));
    append_chars(&mut v, &chars_of(c));
    string_from_chars(&v)
}

/// The status, toast and event reported after a preview request ran.
pub fn preview_action_ui_outcome(
    action: PreviewAction,
    active_capture_id: &str,
    result: Result<PreviewEvent, PreviewActionError>,
) -> (o: PreviewActionUiOutcome)
    ensures
        spec_preview_action_ui_outcome(action, active_capture_id@, result, o),
{
    let labels = PreviewActionLabels::for_action(action);
    match result {
        Ok(event) => {
            if matches_preview_action(action, &event) {
                let id = preview_event_capture_id(&event);
                let status_message = joined(labels.past, " capture ", id);
                let toast_capture_id = copy_text(id);
                let toast_message = joined(labels.success_title, " ", id);
                PreviewActionUiOutcome { event: Some(event), status_message, toast_capture_id, toast_message }
            } else {
                let shown = event.debug_text();
                let status_message = joined(labels.operation, " produced ", shown.as_str());
                let toast_message = joined(labels.title, " produced ", shown.as_str());
                let toast_capture_id = copy_text(active_capture_id);
                PreviewActionUiOutcome { event: Some(event), status_message, toast_capture_id, toast_message }
            }
        },
        Err(err) => {
            let shown = err.describe();
            let status_message = joined(labels.operation, " failed: ", shown.as_str());
            let toast_message = joined(labels.title, " failed: ", shown.as_str());
            let toast_capture_id = copy_text(active_capture_id);
            PreviewActionUiOutcome { event: None, status_message, toast_capture_id, toast_message }
        },
    }
}

/// The status shown when text recognition starts.
pub fn ocr_processing_status(engine_available: bool) -> (s: &'static str)
    ensures
        s == (if engine_available {
            "Recognizing text..."
        } else {
            "Initializing OCR engine..."
        }),
{
    if engine_available {
        "Recognizing text..."
    } else {
        "Initializing OCR engine..."
    }
}

/// The recognized text as shown in a notification: the first 57 characters and `...` when
/// it is longer than 60.
pub open spec fn spec_notification_preview(text: Seq<char>) -> Seq<char> {
    if text.len() > 60 {
        text.take(57) + "..."@
    } else {
        text
    }
}

/// The status line and the notification after text recognition: for no text, that none
/// was found; else how many characters were copied, and a preview of them.
pub open spec fn spec_ocr_result_messages(text: Seq<char>) -> (Seq<char>, Seq<char>) {
    if text.len() == 0 {
        ("OCR: no text found"@, "No text found"@)
    } else {
        (
            "OCR copied "@ + spec_decimal(text.len()) + " chars"@,
            "Copied: "@ + spec_notification_preview(text),
        )
    }
}

pub fn ocr_result_messages(text: &str) -> (m: (String, String))
    ensures
        (m.0@, m.1@) == spec_ocr_result_messages(text@),
{
    let chars = chars_of(text);
    if chars.len() == 0 {
        return (
            string_from_chars(&chars_of("OCR: no text found")),
            string_from_chars(&chars_of("No text found")),
        );
    }
    let mut status = chars_of("OCR copied ");
    append_chars(&mut status, &decimal_chars(chars.len() as u128));
    append_chars(&mut status, &chars_of(" chars"));
    let mut note = chars_of("Copied: ");
    if chars.len() > 60 {
        let mut head: Vec<char> = Vec::new();
        let mut i: usize = 0;
        while i < 57
            invariant
                0 <= i <= 57 < chars.len(),
                head@ == chars@.take(i as int),
            decreases 57 - i,
        {
            head.push(chars[i]);
            i = i + 1;
            assert(head@ =~= chars@.take(i as int));
        }
        append_chars(&mut note, &head);
        append_chars(&mut note, &chars_of("..."));
        assert(note@ =~= "Copied: "@ + spec_notification_preview(text@));
    } else {
        append_chars(&mut note, &chars);
    }
    (string_from_chars(&status), string_from_chars(&note))
}

/// Takes `event` on the machine, writing to `status_log` why when it cannot: the blocked
/// message for an event the current state does not allow. `true` when the state changed.
pub fn transition_with_status(
    machine: &mut StateMachine,
    status_log: &mut String,
    event: AppEvent,
    blocked_message: &str,
    failure_prefix: &str,
) -> (changed: bool)
    ensures
        changed == machine_allows(*old(machine), event),
        changed ==> final(status_log)@ == old(status_log)@,
        !changed ==> final(status_log)@ == blocked_message@ && *final(machine) == *old(machine),
        changed ==> final(machine).spec_state() == spec_next_state(
            old(machine).spec_state(),
            event,
        )->0,
{
    if !machine.can_transition(event) {
        *status_log = string_from_chars(&chars_of(blocked_message));
        return false;
    }
    match machine.transition(event) {
        Ok(_) => true,
        Err(err) => {
            let mut m = chars_of(failure_prefix);
            append_chars(&mut m, &chars_of(": "));
            append_chars(&mut m, &chars_of(err.describe().as_str()));
            *status_log = string_from_chars(&m);
            false
        },
    }
}

/// Whether the machine's current state allows `event`.
pub open spec fn machine_allows(machine: StateMachine, event: AppEvent) -> bool {
    spec_next_state(machine.spec_state(), event) is Some
}

/// What the editor window keeps about the session it shows.
#[derive(Debug, Clone)]
pub struct EditorSessionState {
    pub capture_id: Option<String>,
    pub has_unsaved_changes: bool,
    pub close_dialog_open: bool,
    pub input_mode: EditorInputMode,
}

impl EditorSessionState {
    /// No capture, nothing unsaved, no dialog, no input mode.
    pub fn new() -> (s: Self)
        ensures
            s.capture_id is None,
            !s.has_unsaved_changes,
            !s.close_dialog_open,
            !s.input_mode.spec_crop(),
            !s.input_mode.spec_text(),
    {
        EditorSessionState {
            capture_id: None,
            has_unsaved_changes: false,
            close_dialog_open: false,
            input_mode: EditorInputMode::new(),
        }
    }

    /// Forgets unsaved changes, the close dialog and the input mode; keeps the capture.
    pub fn reset_session_state(&mut self)
        ensures
            final(self).capture_id == old(self).capture_id,
            !final(self).has_unsaved_changes,
            !final(self).close_dialog_open,
            !final(self).input_mode.spec_crop(),
            !final(self).input_mode.spec_text(),
    {
        self.has_unsaved_changes = false;
        self.close_dialog_open = false;
        self.input_mode.reset();
    }

    /// Forgets the capture as well as the session state.
    pub fn clear_runtime_state(&mut self)
        ensures
            final(self).capture_id is None,
            !final(self).has_unsaved_changes,
            !final(self).close_dialog_open,
            !final(self).input_mode.spec_crop(),
            !final(self).input_mode.spec_text(),
    {
        self.capture_id = None;
        self.reset_session_state();
    }
}

/// Resets the editor's session state; see `EditorSessionState::reset_session_state`.
pub fn reset_editor_session_state(state: &mut EditorSessionState)
    ensures
        final(state).capture_id == old(state).capture_id,
        !final(state).has_unsaved_changes,
        !final(state).close_dialog_open,
        !final(state).input_mode.spec_crop(),
        !final(state).input_mode.spec_text(),
{
    state.reset_session_state();
}

/// Which launchpad buttons can be used, and whether the recognition button explains that
/// its models are missing.
#[derive(Debug, Clone, Copy, PartialEq, Eq, Structural)]
pub struct LaunchpadAvailability {
    pub open_preview: bool,
    pub open_editor: bool,
    pub close_preview: bool,
    pub close_editor: bool,
    pub save: bool,
    pub copy: bool,
    pub ocr: bool,
    pub delete: bool,
    pub ocr_models_missing_hint: bool,
}

/// The launchpad buttons available in `state`: a preview opens from idle and the preview
/// actions run in preview, each needing a capture; recognition also needs its models.
pub fn launchpad_action_availability(state: AppState, has_capture: bool, ocr_available: bool) -> (a: LaunchpadAvailability)
    ensures
        a == (LaunchpadAvailability {
            open_preview: state == AppState::Idle && has_capture,
            open_editor: state == AppState::Preview && has_capture,
            close_preview: state == AppState::Preview,
            close_editor: state == AppState::Editor,
            save: state == AppState::Preview && has_capture,
            copy: state == AppState::Preview && has_capture,
            ocr: ocr_available && state == AppState::Preview && has_capture,
            delete: state == AppState::Preview && has_capture,
            ocr_models_missing_hint: !ocr_available,
        }),
{
    let idle = match state {
        AppState::Idle => true,
        _ => false,
    };
    let preview = match state {
        AppState::Preview => true,
        _ => false,
    };
    let editor = match state {
        AppState::Editor => true,
        _ => false,
    };
    LaunchpadAvailability {
        open_preview: idle && has_capture,
        open_editor: preview && has_capture,
        close_preview: preview,
        close_editor: editor,
        save: preview && has_capture,
        copy: preview && has_capture,
        ocr: ocr_available && preview && has_capture,
        delete: preview && has_capture,
        ocr_models_missing_hint: !ocr_available,
    }
}

} // verus!
