use chalkak::editor::commands::{
    cancel_crop, delete_selected_object, editor_selection_click, handle_editor_shortcut_action,
    resolve_editor_tool_fallback_shortcut, switch_tool, EditorButton,
    EditorShortcutOutcome, EditorToolState, TextShortcut,
};
use chalkak::editor::gesture::{
    draw_gesture_begin, draw_gesture_end, EditorCanvasSession,
};
use chalkak::editor::tools::ToolPoint;
use chalkak::editor::{EditorTools, ToolKind, ToolObject};
use chalkak::input::shortcut::{ShortcutAction, ShortcutKey};
use chalkak::session::TextInputActivation;

fn p(x: i32, y: i32) -> ToolPoint {
    ToolPoint::new(x, y)
}

fn drag(s: &mut EditorCanvasSession, tool: ToolKind, from: ToolPoint, to: ToolPoint) {
    let sizes = vec![(8, 16); s.tools.objects().len()];
    let snapshot = s.tools.objects().to_vec();
    draw_gesture_begin(s, tool, false, from, &sizes, snapshot);
    let sizes = vec![(8, 16); s.tools.objects().len()];
    draw_gesture_end(s, to, &sizes, false);
}

fn setup() -> (EditorCanvasSession, EditorToolState) {
    (
        EditorCanvasSession::new(EditorTools::new(), 200, 100),
        EditorToolState::new(),
    )
}

#[test]
fn switch_tool_follows_crop_and_text_policies() {
    let (mut s, mut t) = setup();
    drag(&mut s, ToolKind::Crop, p(0, 0), p(50, 50));
    assert!(s.pending_crop.is_some());

    assert!(!switch_tool(&mut s, &mut t, ToolKind::Crop, true, TextInputActivation::Auto));
    assert!(t.input_mode.crop_active());
    assert!(s.pending_crop.is_some());
    assert_eq!(s.tools.active_tool(), ToolKind::Crop);

    assert!(switch_tool(&mut s, &mut t, ToolKind::Text, false, TextInputActivation::Auto));
    assert!(t.input_mode.text_input_active());
    assert!(!t.input_mode.crop_active());
    assert!(s.pending_crop.is_some());

    t.text_preedit.content = "ga".to_string();
    t.text_preedit.cursor_chars = 1;
    assert!(!switch_tool(&mut s, &mut t, ToolKind::Select, true, TextInputActivation::Auto));
    assert!(!t.input_mode.text_input_active());
    assert!(t.text_preedit.content.is_empty());
    assert!(s.pending_crop.is_none());
    assert_eq!(t.active_tool, ToolKind::Select);

    assert!(switch_tool(&mut s, &mut t, ToolKind::Pen, false, TextInputActivation::ForceOn));
    assert!(t.input_mode.text_input_active());
}

#[test]
fn cancel_crop_returns_to_select() {
    let (mut s, mut t) = setup();
    switch_tool(&mut s, &mut t, ToolKind::Crop, true, TextInputActivation::Auto);
    drag(&mut s, ToolKind::Crop, p(0, 0), p(50, 50));
    cancel_crop(&mut s, &mut t);
    assert_eq!(t.active_tool, ToolKind::Select);
    assert!(!t.input_mode.crop_active());
    assert!(s.pending_crop.is_none());
    assert_eq!(s.status, "crop canceled via Esc; switched to Select");
}

#[test]
fn delete_selected_object_removes_and_saves_history() {
    let (mut s, mut t) = setup();
    let snapshot = s.tools.objects().to_vec();
    assert!(!delete_selected_object(&mut s, &mut t, snapshot));
    assert_eq!(s.status, "no selection to delete");

    drag(&mut s, ToolKind::Rectangle, p(10, 10), p(30, 30));
    assert_eq!(s.selected_object_ids, vec![1]);
    let depth = s.history.undo_depth();
    let snapshot = s.tools.objects().to_vec();
    assert!(delete_selected_object(&mut s, &mut t, snapshot));
    assert_eq!(s.status, "deleted object #1");
    assert!(s.tools.objects().is_empty());
    assert!(s.selected_object_ids.is_empty());
    assert_eq!(s.history.undo_depth(), depth + 1);

    s.selected_object_ids.push(77);
    let snapshot = s.tools.objects().to_vec();
    assert!(!delete_selected_object(&mut s, &mut t, snapshot));
    assert_eq!(s.status, "selected object not found");
    assert!(s.selected_object_ids.is_empty());
}

#[test]
fn deleting_a_text_box_stops_text_input() {
    let (mut s, mut t) = setup();
    let text_id = s.tools.add_text_box(p(5, 5));
    switch_tool(&mut s, &mut t, ToolKind::Text, false, TextInputActivation::ForceOn);
    s.selected_object_ids.push(text_id);
    let snapshot = s.tools.objects().to_vec();
    assert!(delete_selected_object(&mut s, &mut t, snapshot));
    assert!(!t.input_mode.text_input_active());
    assert_eq!(t.active_tool, ToolKind::Text);
    assert!(!matches!(s.tools.object(text_id), Some(ToolObject::Text(_))));
}

#[test]
fn editor_shortcuts_dispatch_to_buttons_and_text_edits() {
    let (mut s, mut t) = setup();
    let run = |s: &mut EditorCanvasSession, t: &mut EditorToolState, action| {
        let snapshot = s.tools.objects().to_vec();
        handle_editor_shortcut_action(s, t, action, snapshot)
    };
    assert_eq!(
        run(&mut s, &mut t, ShortcutAction::EditorSave),
        EditorShortcutOutcome::Press(EditorButton::Save)
    );
    assert_eq!(
        run(&mut s, &mut t, ShortcutAction::EditorRedo),
        EditorShortcutOutcome::Press(EditorButton::Redo)
    );
    assert_eq!(
        run(&mut s, &mut t, ShortcutAction::TextCommit),
        EditorShortcutOutcome::Text(TextShortcut::Commit)
    );
    assert_eq!(
        run(&mut s, &mut t, ShortcutAction::PreviewSave),
        EditorShortcutOutcome::NotHandled
    );
    assert_eq!(
        run(&mut s, &mut t, ShortcutAction::DialogCancel),
        EditorShortcutOutcome::Handled
    );
    assert_eq!(
        run(&mut s, &mut t, ShortcutAction::CropApply),
        EditorShortcutOutcome::Handled
    );
    assert_eq!(s.status, "crop frame is applied on Save/Copy");
    assert_eq!(
        run(&mut s, &mut t, ShortcutAction::EditorDeleteSelection),
        EditorShortcutOutcome::Handled
    );
    assert_eq!(s.status, "no selection to delete");
}

#[test]
fn selection_click_selects_edits_or_clears() {
    let (mut s, mut t) = setup();
    drag(&mut s, ToolKind::Rectangle, p(10, 10), p(30, 30));
    let text_id = s.tools.add_text_box(p(100, 50));
    let sizes = vec![(20, 16); s.tools.objects().len()];

    t.active_tool = ToolKind::Pen;
    editor_selection_click(&mut s, &mut t, false, 1, p(20, 20), &sizes);
    assert_eq!(s.selected_object_ids, vec![1]);
    assert_eq!(s.status, "Rect object #1 created");

    t.active_tool = ToolKind::Select;
    editor_selection_click(&mut s, &mut t, false, 1, p(150, 5), &sizes);
    assert!(s.selected_object_ids.is_empty());
    assert_eq!(s.status, "object selection cleared");

    editor_selection_click(&mut s, &mut t, false, 1, p(20, 20), &sizes);
    assert_eq!(s.selected_object_ids, vec![1]);
    assert_eq!(s.status, "selected object #1");

    editor_selection_click(&mut s, &mut t, false, 2, p(105, 55), &sizes);
    assert_eq!(s.selected_object_ids, vec![text_id]);
    assert_eq!(s.status, format!("text box #{text_id} editing"));
    assert_eq!(t.active_tool, ToolKind::Text);
    assert!(t.input_mode.text_input_active());
    assert_eq!(s.tools.active_text_id(), Some(text_id));
}

#[test]
fn resolve_editor_tool_fallback_shortcut_maps_editor_tool_keys() {
    assert_eq!(resolve_editor_tool_fallback_shortcut(ShortcutKey::Character('v')), Some(ToolKind::Select));
    assert_eq!(resolve_editor_tool_fallback_shortcut(ShortcutKey::Character('h')), Some(ToolKind::Pan));
    assert_eq!(resolve_editor_tool_fallback_shortcut(ShortcutKey::Character('b')), Some(ToolKind::Blur));
    assert_eq!(resolve_editor_tool_fallback_shortcut(ShortcutKey::Character('p')), Some(ToolKind::Pen));
    assert_eq!(resolve_editor_tool_fallback_shortcut(ShortcutKey::Character('a')), Some(ToolKind::Arrow));
    assert_eq!(resolve_editor_tool_fallback_shortcut(ShortcutKey::Character('r')), Some(ToolKind::Rectangle));
    assert_eq!(resolve_editor_tool_fallback_shortcut(ShortcutKey::Character('c')), Some(ToolKind::Crop));
    assert_eq!(resolve_editor_tool_fallback_shortcut(ShortcutKey::Character('t')), Some(ToolKind::Text));
}

#[test]
fn resolve_editor_tool_fallback_shortcut_ignores_non_tool_keys() {
    assert_eq!(resolve_editor_tool_fallback_shortcut(ShortcutKey::Character('x')), None);
    assert_eq!(resolve_editor_tool_fallback_shortcut(ShortcutKey::Escape), None);
}
