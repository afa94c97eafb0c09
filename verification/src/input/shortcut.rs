//! Maps a key press in a given input context to the action it triggers.

use vstd::prelude::*;

verus! {

/// A key as the shortcut layer sees it.
#[derive(Debug, Clone, Copy, PartialEq, Eq, Structural)]
pub enum ShortcutKey {
    Character(char),
    Enter,
    Escape,
    Delete,
    Backspace,
}

/// Modifier keys held during a key press.
#[derive(Debug, Clone, Copy, PartialEq, Eq, Default, Structural)]
pub struct ShortcutModifiers {
    pub ctrl: bool,
    pub shift: bool,
}

impl ShortcutModifiers {
    pub fn new(ctrl: bool, shift: bool) -> (m: Self)
        ensures
            m == (ShortcutModifiers { ctrl, shift }),
    {
        ShortcutModifiers { ctrl, shift }
    }
}

/// What is on screen and focused when a key is pressed.
#[derive(Debug, Clone, Copy, PartialEq, Eq, Default, Structural)]
pub struct InputContext {
    pub dialog_open: bool,
    pub text_input_active: bool,
    pub crop_active: bool,
    pub editor_select_mode: bool,
    pub in_editor: bool,
    pub in_preview: bool,
}

/// The actions a shortcut can trigger.
#[derive(Debug, Clone, Copy, PartialEq, Eq, Structural)]
pub enum ShortcutAction {
    DialogConfirm,
    DialogCancel,
    TextInsertLineBreak,
    TextCommit,
    TextCopySelection,
    TextExitFocus,
    CropApply,
    CropCancel,
    EditorUndo,
    EditorRedo,
    EditorDeleteSelection,
    EditorSave,
    EditorCopyImage,
    EditorEnterSelect,
    EditorEnterPan,
    EditorEnterBlur,
    EditorEnterPen,
    EditorEnterArrow,
    EditorEnterRectangle,
    EditorEnterCrop,
    EditorEnterText,
    EditorEnterOcr,
    EditorToggleToolOptions,
    EditorCloseRequested,
    PreviewSave,
    PreviewCopy,
    PreviewOcr,
    PreviewEdit,
    PreviewDelete,
    PreviewClose,
}

/// Keys of an open dialog: Enter confirms, Escape cancels.
pub open spec fn spec_dialog_shortcut(key: ShortcutKey) -> Option<ShortcutAction> {
    match key {
        ShortcutKey::Enter => Some(ShortcutAction::DialogConfirm),
        ShortcutKey::Escape => Some(ShortcutAction::DialogCancel),
        _ => None,
    }
}

/// Keys while a text box takes input.
pub open spec fn spec_text_shortcut(key: ShortcutKey, modifiers: ShortcutModifiers) -> Option<
    ShortcutAction,
> {
    match key {
        ShortcutKey::Enter => if modifiers.ctrl {
            Some(ShortcutAction::TextCommit)
        } else {
            Some(ShortcutAction::TextInsertLineBreak)
        },
        ShortcutKey::Character(c) => if c == 'c' && modifiers.ctrl {
            Some(ShortcutAction::TextCopySelection)
        } else {
            None
        },
        ShortcutKey::Escape => Some(ShortcutAction::TextExitFocus),
        _ => None,
    }
}

/// Keys while the crop box is being placed: Enter applies, Escape cancels.
pub open spec fn spec_crop_shortcut(key: ShortcutKey) -> Option<ShortcutAction> {
    match key {
        ShortcutKey::Enter => Some(ShortcutAction::CropApply),
        ShortcutKey::Escape => Some(ShortcutAction::CropCancel),
        _ => None,
    }
}

/// The single letters that pick an editor tool.
pub open spec fn spec_editor_tool_shortcut(key: ShortcutKey) -> Option<ShortcutAction> {
    match key {
        ShortcutKey::Character(c) => if c == 'v' {
            Some(ShortcutAction::EditorEnterSelect)
        } else if c == 'h' {
            Some(ShortcutAction::EditorEnterPan)
        } else if c == 'b' {
            Some(ShortcutAction::EditorEnterBlur)
        } else if c == 'p' {
            Some(ShortcutAction::EditorEnterPen)
        } else if c == 'a' {
            Some(ShortcutAction::EditorEnterArrow)
        } else if c == 'r' {
            Some(ShortcutAction::EditorEnterRectangle)
        } else if c == 'c' {
            Some(ShortcutAction::EditorEnterCrop)
        } else if c == 't' {
            Some(ShortcutAction::EditorEnterText)
        } else {
            None
        },
        _ => None,
    }
}

/// Keys in the editor window.
pub open spec fn spec_editor_shortcut(
    key: ShortcutKey,
    modifiers: ShortcutModifiers,
    context: InputContext,
) -> Option<ShortcutAction> {
    let ctrl = modifiers.ctrl;
    let shift = modifiers.shift;
    match key {
        ShortcutKey::Character(c) => if c == 'z' && ctrl && !shift {
            Some(ShortcutAction::EditorUndo)
        } else if c == 'z' && ctrl && shift {
            Some(ShortcutAction::EditorRedo)
        } else if c == 's' && ctrl {
            Some(ShortcutAction::EditorSave)
        } else if c == 'c' && ctrl {
            Some(ShortcutAction::EditorCopyImage)
        } else if c == 'o' && !ctrl && !shift {
            Some(ShortcutAction::EditorToggleToolOptions)
        } else if !ctrl && !shift {
            spec_editor_tool_shortcut(key)
        } else {
            None
        },
        ShortcutKey::Delete | ShortcutKey::Backspace => if !ctrl && !shift {
            Some(ShortcutAction::EditorDeleteSelection)
        } else {
            None
        },
        ShortcutKey::Escape => if !ctrl && !shift && !context.editor_select_mode {
            Some(ShortcutAction::EditorEnterSelect)
        } else {
            Some(ShortcutAction::EditorCloseRequested)
        },
        ShortcutKey::Enter => None,
    }
}

/// Keys in a capture preview window (no modifiers).
pub open spec fn spec_preview_shortcut(key: ShortcutKey, modifiers: ShortcutModifiers) -> Option<
    ShortcutAction,
> {
    if modifiers.ctrl || modifiers.shift {
        None
    } else {
        match key {
            ShortcutKey::Character(c) => if c == 's' {
                Some(ShortcutAction::PreviewSave)
            } else if c == 'c' {
                Some(ShortcutAction::PreviewCopy)
            } else if c == 'e' {
                Some(ShortcutAction::PreviewEdit)
            } else {
                None
            },
            ShortcutKey::Delete => Some(ShortcutAction::PreviewDelete),
            ShortcutKey::Escape => Some(ShortcutAction::PreviewClose),
            _ => None,
        }
    }
}

/// The action of a key press: an open dialog takes every key first, then a text box
/// taking input, then the crop box, then the editor, then a preview window.
pub open spec fn spec_resolve_shortcut(
    key: ShortcutKey,
    modifiers: ShortcutModifiers,
    context: InputContext,
) -> Option<ShortcutAction> {
    if context.dialog_open {
        spec_dialog_shortcut(key)
    } else if context.text_input_active {
        spec_text_shortcut(key, modifiers)
    } else if context.crop_active {
        spec_crop_shortcut(key)
    } else if context.in_editor {
        spec_editor_shortcut(key, modifiers, context)
    } else if context.in_preview {
        spec_preview_shortcut(key, modifiers)
    } else {
        None
    }
}

fn resolve_dialog_shortcut(key: ShortcutKey) -> (a: Option<ShortcutAction>)
    ensures
        a == spec_dialog_shortcut(key),
{
    match key {
        ShortcutKey::Enter => Some(ShortcutAction::DialogConfirm),
        ShortcutKey::Escape => Some(ShortcutAction::DialogCancel),
        _ => None,
    }
}

fn resolve_text_shortcut(key: ShortcutKey, modifiers: ShortcutModifiers) -> (a: Option<ShortcutAction>)
    ensures
        a == spec_text_shortcut(key, modifiers),
{
    match (key, modifiers.ctrl) {
        (ShortcutKey::Enter, true) => Some(ShortcutAction::TextCommit),
        (ShortcutKey::Enter, false) => Some(ShortcutAction::TextInsertLineBreak),
        (ShortcutKey::Character('c'), true) => Some(ShortcutAction::TextCopySelection),
        (ShortcutKey::Escape, _) => Some(ShortcutAction::TextExitFocus),
        _ => None,
    }
}

fn resolve_crop_shortcut(key: ShortcutKey) -> (a: Option<ShortcutAction>)
    ensures
        a == spec_crop_shortcut(key),
{
    match key {
        ShortcutKey::Enter => Some(ShortcutAction::CropApply),
        ShortcutKey::Escape => Some(ShortcutAction::CropCancel),
        _ => None,
    }
}

fn resolve_editor_tool_shortcut(key: ShortcutKey) -> (a: Option<ShortcutAction>)
    ensures
        a == spec_editor_tool_shortcut(key),
{
    match key {
        ShortcutKey::Character('v') => Some(ShortcutAction::EditorEnterSelect),
        ShortcutKey::Character('h') => Some(ShortcutAction::EditorEnterPan),
        ShortcutKey::Character('b') => Some(ShortcutAction::EditorEnterBlur),
        ShortcutKey::Character('p') => Some(ShortcutAction::EditorEnterPen),
        ShortcutKey::Character('a') => Some(ShortcutAction::EditorEnterArrow),
        ShortcutKey::Character('r') => Some(ShortcutAction::EditorEnterRectangle),
        ShortcutKey::Character('c') => Some(ShortcutAction::EditorEnterCrop),
        ShortcutKey::Character('t') => Some(ShortcutAction::EditorEnterText),
        _ => None,
    }
}

fn resolve_editor_shortcut(key: ShortcutKey, modifiers: ShortcutModifiers, context: InputContext) -> (a: Option<ShortcutAction>)
    ensures
        a == spec_editor_shortcut(key, modifiers, context),
{
    match (key, modifiers.ctrl, modifiers.shift) {
        (ShortcutKey::Character('z'), true, false) => Some(ShortcutAction::EditorUndo),
        (ShortcutKey::Character('z'), true, true) => Some(ShortcutAction::EditorRedo),
        (ShortcutKey::Delete, false, false) | (ShortcutKey::Backspace, false, false) => {
            Some(ShortcutAction::EditorDeleteSelection)
        },
        (ShortcutKey::Character('s'), true, _) => Some(ShortcutAction::EditorSave),
        (ShortcutKey::Character('c'), true, _) => Some(ShortcutAction::EditorCopyImage),
        (ShortcutKey::Character('o'), false, false) => Some(ShortcutAction::EditorToggleToolOptions),
        (ShortcutKey::Escape, false, false) => {
            if context.editor_select_mode {
                Some(ShortcutAction::EditorCloseRequested)
            } else {
                Some(ShortcutAction::EditorEnterSelect)
            }
        },
        (ShortcutKey::Escape, _, _) => Some(ShortcutAction::EditorCloseRequested),
        (_, false, false) => resolve_editor_tool_shortcut(key),
        _ => None,
    }
}

fn resolve_preview_shortcut(key: ShortcutKey, modifiers: ShortcutModifiers) -> (a: Option<ShortcutAction>)
    ensures
        a == spec_preview_shortcut(key, modifiers),
{
    match (key, modifiers.ctrl, modifiers.shift) {
        (ShortcutKey::Character('s'), false, false) => Some(ShortcutAction::PreviewSave),
        (ShortcutKey::Character('c'), false, false) => Some(ShortcutAction::PreviewCopy),
        (ShortcutKey::Character('e'), false, false) => Some(ShortcutAction::PreviewEdit),
        (ShortcutKey::Delete, false, false) => Some(ShortcutAction::PreviewDelete),
        (ShortcutKey::Escape, false, false) => Some(ShortcutAction::PreviewClose),
        _ => None,
    }
}

/// The action a key press triggers in the given context, if any.
pub fn resolve_shortcut(key: ShortcutKey, modifiers: ShortcutModifiers, context: InputContext) -> (a: Option<ShortcutAction>)
    ensures
        a == spec_resolve_shortcut(key, modifiers, context),
{
    if context.dialog_open {
        return resolve_dialog_shortcut(key);
    }
    if context.text_input_active {
        return resolve_text_shortcut(key, modifiers);
    }
    if context.crop_active {
        return resolve_crop_shortcut(key);
    }
    if context.in_editor {
        return resolve_editor_shortcut(key, modifiers, context);
    }
    if context.in_preview {
        return resolve_preview_shortcut(key, modifiers);
    }
    None
}

/// The letter a hardware keycode stands for, under both evdev and XKB (+8) numbering.
pub fn shortcut_character_from_keycode(keycode: u32) -> (c: Option<char>)
    ensures
        c == (if keycode == 47 || keycode == 55 {
            Some('v')
        } else if keycode == 35 || keycode == 43 {
            Some('h')
        } else if keycode == 48 || keycode == 56 {
            Some('b')
        } else if keycode == 25 || keycode == 33 {
            Some('p')
        } else if keycode == 30 || keycode == 38 {
            Some('a')
        } else if keycode == 19 || keycode == 27 {
            Some('r')
        } else if keycode == 46 || keycode == 54 {
            Some('c')
        } else if keycode == 20 || keycode == 28 {
            Some('t')
        } else if keycode == 24 || keycode == 32 {
            Some('o')
        } else if keycode == 31 || keycode == 39 {
            Some('s')
        } else if keycode == 44 || keycode == 52 {
            Some('z')
        } else if keycode == 18 || keycode == 26 {
            Some('e')
        } else {
            None::<char>
        }),
{
    match keycode {
        47 | 55 => Some('v'),
        35 | 43 => Some('h'),
        48 | 56 => Some('b'),
        25 | 33 => Some('p'),
        30 | 38 => Some('a'),
        19 | 27 => Some('r'),
        46 | 54 => Some('c'),
        20 | 28 => Some('t'),
        24 | 32 => Some('o'),
        31 | 39 => Some('s'),
        44 | 52 => Some('z'),
        18 | 26 => Some('e'),
        _ => None,
    }
}

/// A key press in a preview window never triggers an editor, text, crop or dialog action,
/// and one in the editor never triggers a preview action.
pub proof fn lemma_shortcut_scopes(key: ShortcutKey, modifiers: ShortcutModifiers, context: InputContext)
    ensures
        !context.dialog_open && !context.text_input_active && !context.crop_active && !context.in_editor
            && context.in_preview ==> match spec_resolve_shortcut(key, modifiers, context) {
            Some(a) => a == ShortcutAction::PreviewSave || a == ShortcutAction::PreviewCopy || a
                == ShortcutAction::PreviewEdit || a == ShortcutAction::PreviewDelete || a
                == ShortcutAction::PreviewClose,
            None => true,
        },
        context.in_editor ==> match spec_resolve_shortcut(key, modifiers, context) {
            Some(a) => !(a == ShortcutAction::PreviewSave || a == ShortcutAction::PreviewCopy || a
                == ShortcutAction::PreviewEdit || a == ShortcutAction::PreviewDelete || a
                == ShortcutAction::PreviewClose),
            None => true,
        },
        context.dialog_open ==> match spec_resolve_shortcut(key, modifiers, context) {
            Some(a) => a == ShortcutAction::DialogConfirm || a == ShortcutAction::DialogCancel,
            None => true,
        },
{
}

/// The editor's key map: with no dialog, no text box taking input and no crop box in
/// place, Ctrl+C copies the image and Ctrl+S saves (whatever the shift state), Ctrl+Z
/// undoes and Ctrl+Shift+Z redoes, a plain letter picks its tool (v select, h pan, b
/// blur, p pen, a arrow, r rectangle, c crop, t text), a plain `o` toggles the tool
/// options, and a plain Delete or Backspace deletes the selection.
pub proof fn lemma_editor_shortcuts(context: InputContext, shift: bool)
    requires
        context.in_editor,
        !context.dialog_open,
        !context.text_input_active,
        !context.crop_active,
    ensures
        spec_resolve_shortcut(ShortcutKey::Character('c'), ShortcutModifiers { ctrl: true, shift }, context)
            == Some(ShortcutAction::EditorCopyImage),
        spec_resolve_shortcut(ShortcutKey::Character('s'), ShortcutModifiers { ctrl: true, shift }, context)
            == Some(ShortcutAction::EditorSave),
        spec_resolve_shortcut(ShortcutKey::Character('z'), ShortcutModifiers { ctrl: true, shift: false }, context)
            == Some(ShortcutAction::EditorUndo),
        spec_resolve_shortcut(ShortcutKey::Character('z'), ShortcutModifiers { ctrl: true, shift: true }, context)
            == Some(ShortcutAction::EditorRedo),
        spec_resolve_shortcut(ShortcutKey::Character('v'), ShortcutModifiers { ctrl: false, shift: false }, context)
            == Some(ShortcutAction::EditorEnterSelect),
        spec_resolve_shortcut(ShortcutKey::Character('h'), ShortcutModifiers { ctrl: false, shift: false }, context)
            == Some(ShortcutAction::EditorEnterPan),
        spec_resolve_shortcut(ShortcutKey::Character('b'), ShortcutModifiers { ctrl: false, shift: false }, context)
            == Some(ShortcutAction::EditorEnterBlur),
        spec_resolve_shortcut(ShortcutKey::Character('p'), ShortcutModifiers { ctrl: false, shift: false }, context)
            == Some(ShortcutAction::EditorEnterPen),
        spec_resolve_shortcut(ShortcutKey::Character('a'), ShortcutModifiers { ctrl: false, shift: false }, context)
            == Some(ShortcutAction::EditorEnterArrow),
        spec_resolve_shortcut(ShortcutKey::Character('r'), ShortcutModifiers { ctrl: false, shift: false }, context)
            == Some(ShortcutAction::EditorEnterRectangle),
        spec_resolve_shortcut(ShortcutKey::Character('c'), ShortcutModifiers { ctrl: false, shift: false }, context)
            == Some(ShortcutAction::EditorEnterCrop),
        spec_resolve_shortcut(ShortcutKey::Character('t'), ShortcutModifiers { ctrl: false, shift: false }, context)
            == Some(ShortcutAction::EditorEnterText),
        spec_resolve_shortcut(ShortcutKey::Character('o'), ShortcutModifiers { ctrl: false, shift: false }, context)
            == Some(ShortcutAction::EditorToggleToolOptions),
        spec_resolve_shortcut(ShortcutKey::Delete, ShortcutModifiers { ctrl: false, shift: false }, context)
            == Some(ShortcutAction::EditorDeleteSelection),
        spec_resolve_shortcut(ShortcutKey::Backspace, ShortcutModifiers { ctrl: false, shift: false }, context)
            == Some(ShortcutAction::EditorDeleteSelection),
{
}

/// While a text box takes input (and no dialog is open), Ctrl+C copies the selected
/// text, Enter breaks the line, Ctrl+Enter commits and Escape leaves the box.
pub proof fn lemma_text_input_shortcuts(context: InputContext, shift: bool)
    requires
        !context.dialog_open,
        context.text_input_active,
    ensures
        spec_resolve_shortcut(ShortcutKey::Character('c'), ShortcutModifiers { ctrl: true, shift }, context)
            == Some(ShortcutAction::TextCopySelection),
        spec_resolve_shortcut(ShortcutKey::Enter, ShortcutModifiers { ctrl: false, shift }, context)
            == Some(ShortcutAction::TextInsertLineBreak),
        spec_resolve_shortcut(ShortcutKey::Enter, ShortcutModifiers { ctrl: true, shift }, context)
            == Some(ShortcutAction::TextCommit),
        spec_resolve_shortcut(ShortcutKey::Escape, ShortcutModifiers { ctrl: false, shift }, context)
            == Some(ShortcutAction::TextExitFocus),
{
}

} // verus!
