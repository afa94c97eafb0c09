//! Editor commands outside drags: switching tools, and the shortcuts that cancel a crop or
//! delete the selected object.

use vstd::prelude::*;

use crate::chars::{append_chars, chars_of, copy_text, string_from_chars};
use crate::numbers::{decimal_chars, spec_decimal};
use crate::session::TextInputActivation;
use super::gesture::{spec_pick, spec_saved_for_undo, EditorCanvasSession};
use super::hit_test::top_object_id_at_point;
use crate::geometry::ToolPoint;
use super::render::TextPreeditState;
use super::tools::{
    lemma_first_is_first_of_its_kind, spec_find, spec_find_kind, spec_index_of, ToolKind, ToolObject,
};
use crate::input::shortcut::{
    resolve_shortcut, spec_resolve_shortcut, InputContext, ShortcutAction, ShortcutKey, ShortcutModifiers,
};
use super::EditorInputMode;

verus! {

/// Which tool is active, the editor's input mode, and the text being composed.
#[derive(Debug)]
pub struct EditorToolState {
    pub active_tool: ToolKind,
    pub input_mode: EditorInputMode,
    pub text_preedit: TextPreeditState,
}

impl EditorToolState {
    /// The select tool, no input mode, nothing being composed.
    pub fn new() -> (t: Self)
        ensures
            t.active_tool == ToolKind::Select,
            !t.input_mode.spec_crop(),
            !t.input_mode.spec_text(),
            t.text_preedit.content@.len() == 0,
            t.text_preedit.cursor_chars == 0,
    {
        EditorToolState {
            active_tool: ToolKind::Select,
            input_mode: EditorInputMode::new(),
            text_preedit: TextPreeditState::default(),
        }
    }
}

/// Whether keyboard text input runs after switching to `tool` with the given policy.
pub open spec fn spec_text_input_active(tool: ToolKind, activation: TextInputActivation) -> bool {
    match activation {
        TextInputActivation::Auto => tool == ToolKind::Text,
        TextInputActivation::ForceOn => true,
        TextInputActivation::ForceOff => false,
    }
}

/// `a` and `b` agree on everything a tool switch leaves alone.
pub open spec fn spec_switch_keeps(a: EditorCanvasSession, b: EditorCanvasSession) -> bool {
    &&& a.history == b.history
    &&& a.selected_object_ids == b.selected_object_ids
    &&& a.object_drag == b.object_drag
    &&& a.active_pen_stroke == b.active_pen_stroke
    &&& a.has_unsaved_changes == b.has_unsaved_changes
    &&& a.status == b.status
    &&& a.image_width == b.image_width
    &&& a.image_height == b.image_height
}

/// What switching to `tool` does to the session and the tool state.
pub open spec fn spec_switched(
    s_after: EditorCanvasSession,
    s_before: EditorCanvasSession,
    t_after: EditorToolState,
    t_before: EditorToolState,
    tool: ToolKind,
    clear_pending_crop_when_not_crop: bool,
    text_input: TextInputActivation,
) -> bool {
    let text = spec_text_input_active(tool, text_input);
    &&& t_after.active_tool == tool
    &&& t_after.input_mode.spec_text() == text
    &&& t_after.input_mode.spec_crop() == (tool == ToolKind::Crop && !text)
    &&& if text {
        t_after.text_preedit == t_before.text_preedit
    } else {
        t_after.text_preedit.content@.len() == 0 && t_after.text_preedit.cursor_chars == 0
    }
    &&& s_after.tools.spec_active_tool() == tool
    &&& s_after.tools.spec_same_objects(&s_before.tools)
    &&& s_after.tools.spec_blur_options() == s_before.tools.spec_blur_options()
    &&& s_after.tools.spec_pen_options() == s_before.tools.spec_pen_options()
    &&& s_after.tools.spec_arrow_options() == s_before.tools.spec_arrow_options()
    &&& s_after.tools.spec_rectangle_options() == s_before.tools.spec_rectangle_options()
    &&& s_after.tools.spec_crop_options() == s_before.tools.spec_crop_options()
    &&& s_after.tools.spec_text_options() == s_before.tools.spec_text_options()
    &&& s_after.drag_preview is None
    &&& s_after.pending_crop == (if clear_pending_crop_when_not_crop && tool != ToolKind::Crop {
        None
    } else {
        s_before.pending_crop
    })
    &&& spec_switch_keeps(s_after, s_before)
}

/// Switches to `tool`: the tool becomes active, a drag outline is dropped, the pending crop
/// box is dropped when asked and `tool` is not the crop tool, crop mode follows the crop
/// tool, and text input starts or stops as the policy says (stopping forgets the text being
/// composed). Returns whether text input runs, so the caller can focus the input method.
pub fn switch_tool(
    s: &mut EditorCanvasSession,
    t: &mut EditorToolState,
    tool: ToolKind,
    clear_pending_crop_when_not_crop: bool,
    text_input: TextInputActivation,
) -> (text_active: bool)
    ensures
        text_active == spec_text_input_active(tool, text_input),
        spec_switched(
            *final(s),
            *old(s),
            *final(t),
            *old(t),
            tool,
            clear_pending_crop_when_not_crop,
            text_input,
        ),
{
    t.active_tool = tool;
    s.tools.select_tool(tool);
    s.drag_preview = None;
    if clear_pending_crop_when_not_crop && tool != ToolKind::Crop {
        s.pending_crop = None;
    }
    if tool == ToolKind::Crop {
        t.input_mode.activate_crop();
    } else {
        t.input_mode.deactivate_crop();
    }
    let text_active = match text_input {
        TextInputActivation::Auto => tool == ToolKind::Text,
        TextInputActivation::ForceOn => true,
        TextInputActivation::ForceOff => false,
    };
    if text_active {
        t.input_mode.start_text_input();
    } else {
        t.input_mode.end_text_input();
        t.text_preedit = TextPreeditState::default();
    }
    text_active
}

/// Cancels the crop: switches to the select tool, dropping the pending crop box, and says so.
pub fn cancel_crop(s: &mut EditorCanvasSession, t: &mut EditorToolState)
    ensures
        final(t).active_tool == ToolKind::Select,
        !final(t).input_mode.spec_crop(),
        !final(t).input_mode.spec_text(),
        final(s).pending_crop is None,
        final(s).drag_preview is None,
        final(s).tools.spec_active_tool() == ToolKind::Select,
        final(s).tools.spec_same_objects(&old(s).tools),
        final(s).history == old(s).history,
        final(s).selected_object_ids == old(s).selected_object_ids,
        final(s).object_drag == old(s).object_drag,
        final(s).has_unsaved_changes == old(s).has_unsaved_changes,
        final(s).active_pen_stroke == old(s).active_pen_stroke,
        final(s).tools.spec_blur_options() == old(s).tools.spec_blur_options(),
        final(s).tools.spec_pen_options() == old(s).tools.spec_pen_options(),
        final(s).tools.spec_arrow_options() == old(s).tools.spec_arrow_options(),
        final(s).tools.spec_rectangle_options() == old(s).tools.spec_rectangle_options(),
        final(s).tools.spec_crop_options() == old(s).tools.spec_crop_options(),
        final(s).tools.spec_text_options() == old(s).tools.spec_text_options(),
        final(t).text_preedit.content@.len() == 0,
        final(t).text_preedit.cursor_chars == 0,
        final(s).status@ == "crop canceled via Esc; switched to Select"@,
{
    switch_tool(s, t, ToolKind::Select, true, TextInputActivation::Auto);
    s.status = copy_text("crop canceled via Esc; switched to Select");
}

/// Deletes the object leading the selection. Without a selection the status says so and
/// nothing changes. When the object is gone already, the selection is cleared. Otherwise the
/// objects are saved for undo, the object is removed, the selection is cleared, text input
/// stops if it was a text box, a pending crop box is dropped if it was a crop box, the
/// editor is marked changed and the status names the deleted object. Returns whether an
/// object was deleted.
pub fn delete_selected_object(
    s: &mut EditorCanvasSession,
    t: &mut EditorToolState,
    snapshot: Vec<ToolObject>,
) -> (deleted: bool)
    requires
        snapshot@ == old(s).tools.spec_objects(),
    ensures
        old(s).selected_object_ids@.len() == 0 ==> {
            &&& !deleted
            &&& final(s).status@ == "no selection to delete"@
            &&& final(s).tools == old(s).tools
            &&& final(s).history == old(s).history
            &&& final(s).selected_object_ids == old(s).selected_object_ids
            &&& final(s).pending_crop == old(s).pending_crop
            &&& final(s).has_unsaved_changes == old(s).has_unsaved_changes
            &&& final(s).drag_preview == old(s).drag_preview
            &&& *final(t) == *old(t)
        },
        old(s).selected_object_ids@.len() > 0 ==> {
            let id = old(s).selected_object_ids@[0];
            &&& final(s).selected_object_ids@.len() == 0
            &&& deleted == spec_find(old(s).tools.spec_objects(), id) is Some
            &&& if deleted {
                let i = spec_index_of(old(s).tools.spec_objects(), id);
                let removed = old(s).tools.spec_objects()[i];
                &&& final(s).tools.spec_objects() == old(s).tools.spec_objects().remove(i)
                &&& final(s).tools.spec_next_id() == old(s).tools.spec_next_id()
                &&& spec_saved_for_undo(final(s).history, old(s).history, snapshot@)
                &&& final(s).has_unsaved_changes
                &&& final(s).status@ == "deleted object #"@ + spec_decimal(id as nat)
                &&& final(s).pending_crop == (if removed is Crop {
                    None
                } else {
                    old(s).pending_crop
                })
                &&& if removed is Text {
                    &&& !final(t).input_mode.spec_text()
                    &&& final(t).active_tool == old(t).active_tool
                    &&& final(s).drag_preview is None
                } else {
                    &&& *final(t) == *old(t)
                    &&& final(s).drag_preview == old(s).drag_preview
                }
            } else {
                &&& final(s).tools == old(s).tools
                &&& final(s).history == old(s).history
                &&& final(s).pending_crop == old(s).pending_crop
                &&& final(s).has_unsaved_changes == old(s).has_unsaved_changes
                &&& final(s).status@ == "selected object not found"@
                &&& final(s).drag_preview == old(s).drag_preview
                &&& *final(t) == *old(t)
            }
        },
        final(s).object_drag == old(s).object_drag,
        final(s).active_pen_stroke == old(s).active_pen_stroke,
        final(s).image_width == old(s).image_width,
        final(s).image_height == old(s).image_height,
{
    if s.selected_object_ids.len() == 0 {
        s.status = copy_text("no selection to delete");
        return false;
    }
    let selected_id = s.selected_object_ids[0];
    let removed = s.tools.remove_object(selected_id);
    match removed {
        Some(object) => {
            s.history.record_undo_snapshot(snapshot);
            s.selected_object_ids.clear();
            let is_text = match &object {
                ToolObject::Text(_) => true,
                _ => false,
            };
            let is_crop = match &object {
                ToolObject::Crop(_) => true,
                _ => false,
            };
            if is_text {
                let tool = t.active_tool;
                switch_tool(s, t, tool, false, TextInputActivation::ForceOff);
            }
            if is_crop {
                s.pending_crop = None;
            }
            s.has_unsaved_changes = true;
            let mut v = chars_of("deleted object #");
            append_chars(&mut v, &decimal_chars(selected_id as u128));
            s.status = string_from_chars(&v);
            true
        },
        None => {
            s.selected_object_ids.clear();
            s.status = copy_text("selected object not found");
            false
        },
    }
}

/// An editor window button that a shortcut presses.
#[derive(Debug, Clone, Copy, PartialEq, Eq, Structural)]
pub enum EditorButton {
    Save,
    Copy,
    ToggleToolOptions,
    Close,
    Undo,
    Redo,
}

/// A text-editing shortcut, carried out by the text input handler.
#[derive(Debug, Clone, Copy, PartialEq, Eq, Structural)]
pub enum TextShortcut {
    InsertLineBreak,
    Commit,
    ExitFocus,
    CopySelection,
}

/// What became of an editor shortcut.
#[derive(Debug, Clone, Copy, PartialEq, Eq, Structural)]
pub enum EditorShortcutOutcome {
    /// Handled here, or a dialog key with nothing to do; the key goes no further.
    Handled,
    /// The caller presses this button; the key goes no further.
    Press(EditorButton),
    /// The caller runs this text edit; the key goes no further.
    Text(TextShortcut),
    /// Not an editor shortcut; the key goes on to other handlers.
    NotHandled,
}

/// The outcome of each shortcut, as the editor dispatches it.
pub open spec fn spec_shortcut_outcome(action: ShortcutAction) -> EditorShortcutOutcome {
    match action {
        ShortcutAction::DialogConfirm | ShortcutAction::DialogCancel | ShortcutAction::CropApply
        | ShortcutAction::CropCancel | ShortcutAction::EditorDeleteSelection => EditorShortcutOutcome::Handled,
        ShortcutAction::EditorSave => EditorShortcutOutcome::Press(EditorButton::Save),
        ShortcutAction::EditorCopyImage => EditorShortcutOutcome::Press(EditorButton::Copy),
        ShortcutAction::EditorToggleToolOptions => EditorShortcutOutcome::Press(EditorButton::ToggleToolOptions),
        ShortcutAction::EditorCloseRequested => EditorShortcutOutcome::Press(EditorButton::Close),
        ShortcutAction::EditorUndo => EditorShortcutOutcome::Press(EditorButton::Undo),
        ShortcutAction::EditorRedo => EditorShortcutOutcome::Press(EditorButton::Redo),
        ShortcutAction::TextInsertLineBreak => EditorShortcutOutcome::Text(TextShortcut::InsertLineBreak),
        ShortcutAction::TextCommit => EditorShortcutOutcome::Text(TextShortcut::Commit),
        ShortcutAction::TextExitFocus => EditorShortcutOutcome::Text(TextShortcut::ExitFocus),
        ShortcutAction::TextCopySelection => EditorShortcutOutcome::Text(TextShortcut::CopySelection),
        _ => EditorShortcutOutcome::NotHandled,
    }
}

/// Carries out an editor shortcut: crop apply explains itself in the status, crop cancel
/// and deleting the selection run here, buttons and text edits are handed back to the
/// caller, and other keys are not handled. Only the handled ones change the session.
pub fn handle_editor_shortcut_action(
    s: &mut EditorCanvasSession,
    t: &mut EditorToolState,
    action: ShortcutAction,
    snapshot: Vec<ToolObject>,
) -> (outcome: EditorShortcutOutcome)
    requires
        snapshot@ == old(s).tools.spec_objects(),
    ensures
        outcome == spec_shortcut_outcome(action),
        action == ShortcutAction::CropApply ==> final(s).status@ == "crop frame is applied on Save/Copy"@
            && final(s).tools == old(s).tools && final(s).pending_crop == old(s).pending_crop
            && *final(t) == *old(t),
        action == ShortcutAction::CropCancel ==> final(t).active_tool == ToolKind::Select
            && final(s).pending_crop is None && final(s).status@
            == "crop canceled via Esc; switched to Select"@,
        action == ShortcutAction::EditorDeleteSelection && old(s).selected_object_ids@.len() > 0
            ==> final(s).selected_object_ids@.len() == 0 && (spec_find(
            old(s).tools.spec_objects(),
            old(s).selected_object_ids@[0],
        ) is Some ==> final(s).tools.spec_objects() == old(s).tools.spec_objects().remove(
            spec_index_of(old(s).tools.spec_objects(), old(s).selected_object_ids@[0]),
        )),
        action == ShortcutAction::EditorDeleteSelection && old(s).selected_object_ids@.len() == 0
            ==> final(s).status@ == "no selection to delete"@ && final(s).tools == old(s).tools,
        !(action == ShortcutAction::CropApply || action == ShortcutAction::CropCancel || action
            == ShortcutAction::EditorDeleteSelection) ==> *final(s) == *old(s) && *final(t) == *old(t),
{
    match action {
        ShortcutAction::DialogConfirm | ShortcutAction::DialogCancel => EditorShortcutOutcome::Handled,
        ShortcutAction::EditorSave => EditorShortcutOutcome::Press(EditorButton::Save),
        ShortcutAction::EditorCopyImage => EditorShortcutOutcome::Press(EditorButton::Copy),
        ShortcutAction::EditorToggleToolOptions => EditorShortcutOutcome::Press(EditorButton::ToggleToolOptions),
        ShortcutAction::EditorCloseRequested => EditorShortcutOutcome::Press(EditorButton::Close),
        ShortcutAction::CropApply => {
            s.status = copy_text("crop frame is applied on Save/Copy");
            EditorShortcutOutcome::Handled
        },
        ShortcutAction::CropCancel => {
            cancel_crop(s, t);
            EditorShortcutOutcome::Handled
        },
        ShortcutAction::EditorUndo => EditorShortcutOutcome::Press(EditorButton::Undo),
        ShortcutAction::EditorRedo => EditorShortcutOutcome::Press(EditorButton::Redo),
        ShortcutAction::EditorDeleteSelection => {
            delete_selected_object(s, t, snapshot);
            EditorShortcutOutcome::Handled
        },
        ShortcutAction::TextInsertLineBreak => EditorShortcutOutcome::Text(TextShortcut::InsertLineBreak),
        ShortcutAction::TextCommit => EditorShortcutOutcome::Text(TextShortcut::Commit),
        ShortcutAction::TextExitFocus => EditorShortcutOutcome::Text(TextShortcut::ExitFocus),
        ShortcutAction::TextCopySelection => EditorShortcutOutcome::Text(TextShortcut::CopySelection),
        _ => EditorShortcutOutcome::NotHandled,
    }
}

/// Starts editing the text box `text_id`: it becomes the selection, the text tool is
/// switched to with text input on (dropping a pending crop box), the box takes focus with
/// its cursor at the end, and nothing is being composed.
pub fn enter_text_box_editing(s: &mut EditorCanvasSession, t: &mut EditorToolState, text_id: u64)
    ensures
        final(s).selected_object_ids@ == seq![text_id],
        final(t).active_tool == ToolKind::Text,
        final(t).input_mode.spec_text(),
        !final(t).input_mode.spec_crop(),
        final(t).text_preedit.content@.len() == 0,
        final(t).text_preedit.cursor_chars == 0,
        final(s).pending_crop is None,
        final(s).drag_preview is None,
        final(s).tools.spec_active_tool() == ToolKind::Text,
        spec_find_kind(old(s).tools.spec_objects(), text_id, ToolKind::Text) is Some
            ==> final(s).tools.spec_active_text_box() == Some(text_id),
        final(s).tools.spec_objects().len() == old(s).tools.spec_objects().len(),
        final(s).history == old(s).history,
        final(s).object_drag == old(s).object_drag,
        final(s).has_unsaved_changes == old(s).has_unsaved_changes,
        final(s).status == old(s).status,
{
    s.selected_object_ids.clear();
    s.selected_object_ids.push(text_id);
    assert(s.selected_object_ids@ =~= seq![text_id]);
    switch_tool(s, t, ToolKind::Text, true, TextInputActivation::ForceOn);
    let _ = s.tools.focus_text_box(text_id);
    t.text_preedit = TextPreeditState::default();
}

/// What a click with the select tool at `point` does: with space held, another tool
/// active, or the crop tool, nothing; a double click on a text box starts editing it; a
/// click on an object selects it; a click on nothing clears the selection.
pub fn editor_selection_click(
    s: &mut EditorCanvasSession,
    t: &mut EditorToolState,
    space_pan_pressed: bool,
    n_press: i32,
    point: ToolPoint,
    text_sizes: &Vec<(u32, u32)>,
)
    requires
        text_sizes@.len() == old(s).tools.spec_objects().len(),
    ensures
        (space_pan_pressed || old(t).active_tool != ToolKind::Select) ==> *final(s) == *old(s)
            && *final(t) == *old(t),
        !(space_pan_pressed || old(t).active_tool != ToolKind::Select) ==> match spec_pick(
            *old(s),
            point,
            text_sizes@,
        ) {
            Some(id) => if n_press >= 2 && spec_find(old(s).tools.spec_objects(), id) matches Some(
                ToolObject::Text(_),
            ) {
                &&& final(s).selected_object_ids@ == seq![id]
                &&& final(t).active_tool == ToolKind::Text
                &&& final(t).input_mode.spec_text()
                &&& final(s).tools.spec_active_text_box() == Some(id)
                &&& final(s).status@ == "text box #"@ + spec_decimal(id as nat) + " editing"@
            } else {
                &&& final(s).selected_object_ids@ == seq![id]
                &&& final(s).tools == old(s).tools
                &&& *final(t) == *old(t)
                &&& final(s).status@ == "selected object #"@ + spec_decimal(id as nat)
            },
            None => {
                &&& final(s).selected_object_ids@.len() == 0
                &&& final(s).tools == old(s).tools
                &&& *final(t) == *old(t)
                &&& final(s).status@ == "object selection cleared"@
            },
        },
        final(s).history == old(s).history,
        final(s).object_drag == old(s).object_drag,
        final(s).has_unsaved_changes == old(s).has_unsaved_changes,
{
    if space_pan_pressed || t.active_tool != ToolKind::Select {
        return;
    }
    match top_object_id_at_point(&s.tools, point, text_sizes) {
        Some(id) => {
            let is_text = match s.tools.object(id) {
                Some(ToolObject::Text(_)) => true,
                _ => false,
            };
            if n_press >= 2 && is_text {
                proof {
                    lemma_first_is_first_of_its_kind(s.tools.spec_objects(), id);
                }
                enter_text_box_editing(s, t, id);
                let mut v = chars_of("text box #");
                append_chars(&mut v, &decimal_chars(id as u128));
                append_chars(&mut v, &chars_of(" editing"));
                s.status = string_from_chars(&v);
            } else {
                s.selected_object_ids.clear();
                s.selected_object_ids.push(id);
                assert(s.selected_object_ids@ =~= seq![id]);
                let mut v = chars_of("selected object #");
                append_chars(&mut v, &decimal_chars(id as u128));
                s.status = string_from_chars(&v);
            }
        },
        None => {
            s.selected_object_ids.clear();
            s.status = copy_text("object selection cleared");
        },
    }
}

/// The tool a tool shortcut arms, with the status line saying so.
pub open spec fn spec_shortcut_tool(action: ShortcutAction) -> Option<(ToolKind, Seq<char>)> {
    match action {
        ShortcutAction::EditorEnterSelect => Some((ToolKind::Select, "editor select tool armed"@)),
        ShortcutAction::EditorEnterPan => Some((ToolKind::Pan, "editor pan tool armed"@)),
        ShortcutAction::EditorEnterBlur => Some((ToolKind::Blur, "editor blur tool armed"@)),
        ShortcutAction::EditorEnterPen => Some((ToolKind::Pen, "editor pen tool armed"@)),
        ShortcutAction::EditorEnterArrow => Some((ToolKind::Arrow, "editor arrow tool armed"@)),
        ShortcutAction::EditorEnterRectangle => Some((ToolKind::Rectangle, "editor rectangle tool armed"@)),
        ShortcutAction::EditorEnterCrop => Some((ToolKind::Crop, "editor crop interaction armed"@)),
        ShortcutAction::EditorEnterText => Some((ToolKind::Text, "editor text tool armed"@)),
        ShortcutAction::EditorEnterOcr => Some((ToolKind::Ocr, "editor OCR tool armed"@)),
        _ => None,
    }
}

/// The tool a tool shortcut arms, with its status line; none for other shortcuts.
pub fn shortcut_editor_tool_switch(action: ShortcutAction) -> (r: Option<(ToolKind, &'static str)>)
    ensures
        match spec_shortcut_tool(action) {
            Some((tool, message)) => r matches Some((t, m)) && t == tool && m@ == message,
            None => r is None,
        },
{
    match action {
        ShortcutAction::EditorEnterSelect => Some((ToolKind::Select, "editor select tool armed")),
        ShortcutAction::EditorEnterPan => Some((ToolKind::Pan, "editor pan tool armed")),
        ShortcutAction::EditorEnterBlur => Some((ToolKind::Blur, "editor blur tool armed")),
        ShortcutAction::EditorEnterPen => Some((ToolKind::Pen, "editor pen tool armed")),
        ShortcutAction::EditorEnterArrow => Some((ToolKind::Arrow, "editor arrow tool armed")),
        ShortcutAction::EditorEnterRectangle => Some((ToolKind::Rectangle, "editor rectangle tool armed")),
        ShortcutAction::EditorEnterCrop => Some((ToolKind::Crop, "editor crop interaction armed")),
        ShortcutAction::EditorEnterText => Some((ToolKind::Text, "editor text tool armed")),
        ShortcutAction::EditorEnterOcr => Some((ToolKind::Ocr, "editor OCR tool armed")),
        _ => None,
    }
}

/// The editor window with nothing else going on: no dialog, no text input, no crop, not in
/// select mode.
pub open spec fn spec_plain_editor_context() -> InputContext {
    InputContext {
        dialog_open: false,
        text_input_active: false,
        crop_active: false,
        editor_select_mode: false,
        in_editor: true,
        in_preview: false,
    }
}

/// The tool a plain character key picks when the editor's key handling missed it: the tool
/// of the editor shortcut that the key makes without modifiers, if that shortcut picks a
/// tool; none for keys that are not characters.
pub open spec fn spec_tool_fallback(key: ShortcutKey) -> Option<ToolKind> {
    match key {
        ShortcutKey::Character(_) => match spec_resolve_shortcut(
            key,
            ShortcutModifiers { ctrl: false, shift: false },
            spec_plain_editor_context(),
        ) {
            Some(action) => match spec_shortcut_tool(action) {
                Some((tool, _)) => Some(tool),
                None => None,
            },
            None => None,
        },
        _ => None,
    }
}

pub fn resolve_editor_tool_fallback_shortcut(shortcut_key: ShortcutKey) -> (tool: Option<ToolKind>)
    ensures
        tool == spec_tool_fallback(shortcut_key),
{
    match shortcut_key {
        ShortcutKey::Character(_) => {},
        _ => return None,
    }
    let context = InputContext {
        dialog_open: false,
        text_input_active: false,
        crop_active: false,
        editor_select_mode: false,
        in_editor: true,
        in_preview: false,
    };
    let action = match resolve_shortcut(shortcut_key, ShortcutModifiers { ctrl: false, shift: false }, context) {
        Some(a) => a,
        None => return None,
    };
    match shortcut_editor_tool_switch(action) {
        Some((tool, _)) => Some(tool),
        None => None,
    }
}

} // verus!
