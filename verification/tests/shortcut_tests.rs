use chalkak::editor::commands::shortcut_editor_tool_switch;
use chalkak::editor::ToolKind;
use chalkak::preview::{preview_shortcut_presses_button, preview_shortcut_target, PreviewShortcutTarget};
use chalkak::input::{
    resolve_shortcut, shortcut_character_from_keycode, InputContext, ShortcutAction, ShortcutKey,
    ShortcutModifiers,
};

#[test]
fn resolve_shortcut_prioritizes_dialog_context() {
    let context = InputContext {
        dialog_open: true,
        text_input_active: true,
        crop_active: true,
        editor_select_mode: true,
        in_editor: true,
        in_preview: true,
    };
    assert_eq!(
        resolve_shortcut(ShortcutKey::Enter, ShortcutModifiers::default(), context),
        Some(ShortcutAction::DialogConfirm)
    );
    assert_eq!(
        resolve_shortcut(ShortcutKey::Escape, ShortcutModifiers::default(), context),
        Some(ShortcutAction::DialogCancel)
    );
}

#[test]
fn resolve_shortcut_prioritizes_text_over_editor_copy() {
    let context = InputContext {
        text_input_active: true,
        in_editor: true,
        ..Default::default()
    };
    assert_eq!(
        resolve_shortcut(
            ShortcutKey::Character('c'),
            ShortcutModifiers::new(true, false),
            context
        ),
        Some(ShortcutAction::TextCopySelection)
    );
}

#[test]
fn resolve_shortcut_prioritizes_crop_over_editor_escape() {
    let context = InputContext {
        crop_active: true,
        in_editor: true,
        ..Default::default()
    };
    assert_eq!(
        resolve_shortcut(ShortcutKey::Escape, ShortcutModifiers::default(), context),
        Some(ShortcutAction::CropCancel)
    );
}

#[test]
fn resolve_shortcut_maps_editor_shortcuts() {
    let context = InputContext {
        in_editor: true,
        ..Default::default()
    };
    assert_eq!(
        resolve_shortcut(
            ShortcutKey::Character('z'),
            ShortcutModifiers::new(true, false),
            context
        ),
        Some(ShortcutAction::EditorUndo)
    );
    assert_eq!(
        resolve_shortcut(
            ShortcutKey::Character('z'),
            ShortcutModifiers::new(true, true),
            context
        ),
        Some(ShortcutAction::EditorRedo)
    );
    assert_eq!(
        resolve_shortcut(
            ShortcutKey::Character('s'),
            ShortcutModifiers::new(true, false),
            context
        ),
        Some(ShortcutAction::EditorSave)
    );
    assert_eq!(
        resolve_shortcut(ShortcutKey::Delete, ShortcutModifiers::default(), context),
        Some(ShortcutAction::EditorDeleteSelection)
    );
    assert_eq!(
        resolve_shortcut(
            ShortcutKey::Backspace,
            ShortcutModifiers::default(),
            context
        ),
        Some(ShortcutAction::EditorDeleteSelection)
    );
    assert_eq!(
        resolve_shortcut(
            ShortcutKey::Character('v'),
            ShortcutModifiers::new(false, false),
            context
        ),
        Some(ShortcutAction::EditorEnterSelect)
    );
    assert_eq!(
        resolve_shortcut(
            ShortcutKey::Character('h'),
            ShortcutModifiers::new(false, false),
            context
        ),
        Some(ShortcutAction::EditorEnterPan)
    );
    assert_eq!(
        resolve_shortcut(
            ShortcutKey::Character('b'),
            ShortcutModifiers::new(false, false),
            context
        ),
        Some(ShortcutAction::EditorEnterBlur)
    );
    assert_eq!(
        resolve_shortcut(
            ShortcutKey::Character('p'),
            ShortcutModifiers::new(false, false),
            context
        ),
        Some(ShortcutAction::EditorEnterPen)
    );
    assert_eq!(
        resolve_shortcut(
            ShortcutKey::Character('a'),
            ShortcutModifiers::new(false, false),
            context
        ),
        Some(ShortcutAction::EditorEnterArrow)
    );
    assert_eq!(
        resolve_shortcut(
            ShortcutKey::Character('r'),
            ShortcutModifiers::new(false, false),
            context
        ),
        Some(ShortcutAction::EditorEnterRectangle)
    );
    assert_eq!(
        resolve_shortcut(
            ShortcutKey::Character('c'),
            ShortcutModifiers::new(false, false),
            context
        ),
        Some(ShortcutAction::EditorEnterCrop)
    );
    assert_eq!(
        resolve_shortcut(
            ShortcutKey::Character('t'),
            ShortcutModifiers::new(false, false),
            context
        ),
        Some(ShortcutAction::EditorEnterText)
    );
    assert_eq!(
        resolve_shortcut(
            ShortcutKey::Character('o'),
            ShortcutModifiers::new(false, false),
            context
        ),
        Some(ShortcutAction::EditorToggleToolOptions)
    );
    assert_eq!(
        resolve_shortcut(ShortcutKey::Escape, ShortcutModifiers::default(), context),
        Some(ShortcutAction::EditorEnterSelect)
    );
}

#[test]
fn resolve_shortcut_maps_editor_escape_to_close_when_select_mode() {
    let context = InputContext {
        in_editor: true,
        editor_select_mode: true,
        ..Default::default()
    };
    assert_eq!(
        resolve_shortcut(ShortcutKey::Escape, ShortcutModifiers::default(), context),
        Some(ShortcutAction::EditorCloseRequested)
    );
}

#[test]
fn resolve_shortcut_maps_preview_shortcuts() {
    let context = InputContext {
        in_preview: true,
        ..Default::default()
    };
    assert_eq!(
        resolve_shortcut(
            ShortcutKey::Character('s'),
            ShortcutModifiers::default(),
            context
        ),
        Some(ShortcutAction::PreviewSave)
    );
    assert_eq!(
        resolve_shortcut(
            ShortcutKey::Character('c'),
            ShortcutModifiers::default(),
            context
        ),
        Some(ShortcutAction::PreviewCopy)
    );
    assert_eq!(
        resolve_shortcut(
            ShortcutKey::Character('e'),
            ShortcutModifiers::default(),
            context
        ),
        Some(ShortcutAction::PreviewEdit)
    );
    assert_eq!(
        resolve_shortcut(ShortcutKey::Delete, ShortcutModifiers::default(), context),
        Some(ShortcutAction::PreviewDelete)
    );
    assert_eq!(
        resolve_shortcut(
            ShortcutKey::Backspace,
            ShortcutModifiers::default(),
            context
        ),
        None
    );
    assert_eq!(
        resolve_shortcut(ShortcutKey::Escape, ShortcutModifiers::default(), context),
        Some(ShortcutAction::PreviewClose)
    );
}

#[test]
fn shortcut_character_from_keycode_reads_evdev_and_xkb_codes() {
    assert_eq!(shortcut_character_from_keycode(47), Some('v'));
    assert_eq!(shortcut_character_from_keycode(55), Some('v'));
    assert_eq!(shortcut_character_from_keycode(1), None);
}

#[test]
fn no_context_resolves_nothing() {
    let context = InputContext::default();
    assert_eq!(
        resolve_shortcut(ShortcutKey::Escape, ShortcutModifiers::default(), context),
        None
    );
}

#[test]
fn shortcut_editor_tool_switch_maps_tool_shortcuts() {
    assert_eq!(
        shortcut_editor_tool_switch(ShortcutAction::EditorEnterSelect),
        Some((ToolKind::Select, "editor select tool armed"))
    );
    assert_eq!(
        shortcut_editor_tool_switch(ShortcutAction::EditorEnterPan),
        Some((ToolKind::Pan, "editor pan tool armed"))
    );
    assert_eq!(
        shortcut_editor_tool_switch(ShortcutAction::EditorEnterBlur),
        Some((ToolKind::Blur, "editor blur tool armed"))
    );
    assert_eq!(
        shortcut_editor_tool_switch(ShortcutAction::EditorEnterPen),
        Some((ToolKind::Pen, "editor pen tool armed"))
    );
    assert_eq!(
        shortcut_editor_tool_switch(ShortcutAction::EditorEnterArrow),
        Some((ToolKind::Arrow, "editor arrow tool armed"))
    );
    assert_eq!(
        shortcut_editor_tool_switch(ShortcutAction::EditorEnterRectangle),
        Some((ToolKind::Rectangle, "editor rectangle tool armed"))
    );
    assert_eq!(
        shortcut_editor_tool_switch(ShortcutAction::EditorEnterCrop),
        Some((ToolKind::Crop, "editor crop interaction armed"))
    );
    assert_eq!(
        shortcut_editor_tool_switch(ShortcutAction::EditorEnterText),
        Some((ToolKind::Text, "editor text tool armed"))
    );
    assert_eq!(
        shortcut_editor_tool_switch(ShortcutAction::EditorEnterOcr),
        Some((ToolKind::Ocr, "editor OCR tool armed"))
    );
}

#[test]
fn shortcut_editor_tool_switch_ignores_non_tool_actions() {
    assert_eq!(shortcut_editor_tool_switch(ShortcutAction::EditorSave), None);
    assert_eq!(shortcut_editor_tool_switch(ShortcutAction::CropCancel), None);
}

#[test]
fn preview_shortcut_target_maps_preview_actions() {
    assert_eq!(
        preview_shortcut_target(ShortcutAction::PreviewSave),
        Some(PreviewShortcutTarget::Save)
    );
    assert_eq!(
        preview_shortcut_target(ShortcutAction::PreviewCopy),
        Some(PreviewShortcutTarget::Copy)
    );
    assert_eq!(
        preview_shortcut_target(ShortcutAction::PreviewEdit),
        Some(PreviewShortcutTarget::Edit)
    );
    assert_eq!(
        preview_shortcut_target(ShortcutAction::PreviewDelete),
        Some(PreviewShortcutTarget::Delete)
    );
    assert_eq!(
        preview_shortcut_target(ShortcutAction::PreviewClose),
        Some(PreviewShortcutTarget::Close)
    );
}

#[test]
fn preview_shortcut_target_ignores_non_preview_actions() {
    assert_eq!(preview_shortcut_target(ShortcutAction::EditorSave), None);
    assert_eq!(preview_shortcut_target(ShortcutAction::DialogConfirm), None);
}

#[test]
fn preview_ocr_shortcut_needs_models() {
    assert_eq!(
        preview_shortcut_presses_button(ShortcutAction::PreviewOcr, true),
        Some(PreviewShortcutTarget::Ocr)
    );
    assert_eq!(preview_shortcut_presses_button(ShortcutAction::PreviewOcr, false), None);
    assert_eq!(
        preview_shortcut_presses_button(ShortcutAction::PreviewCopy, false),
        Some(PreviewShortcutTarget::Copy)
    );
}
