use chalkak::editor::history::EditorHistoryAction;
use chalkak::editor::gesture::{
    apply_history_action, draw_gesture_begin, draw_gesture_end, draw_gesture_update, DrawEndOutcome,
    EditorCanvasSession, GestureClaim, ObjectDragState, ToolDragPreview,
};
use chalkak::editor::tools::ToolPoint;
use chalkak::editor::{EditorTools, ToolKind, ToolObject};

fn p(x: i32, y: i32) -> ToolPoint {
    ToolPoint::new(x, y)
}

fn session() -> EditorCanvasSession {
    EditorCanvasSession::new(EditorTools::new(), 200, 100)
}

fn sizes(s: &EditorCanvasSession) -> Vec<(u32, u32)> {
    vec![(8, 16); s.tools.objects().len()]
}

fn begin(s: &mut EditorCanvasSession, tool: ToolKind, at: ToolPoint) -> GestureClaim {
    let text_sizes = sizes(s);
    let snapshot = s.tools.objects().to_vec();
    draw_gesture_begin(s, tool, false, at, &text_sizes, snapshot)
}

fn end(s: &mut EditorCanvasSession, at: ToolPoint) -> DrawEndOutcome {
    let text_sizes = sizes(s);
    draw_gesture_end(s, at, &text_sizes, false)
}

fn drag(s: &mut EditorCanvasSession, tool: ToolKind, from: ToolPoint, to: ToolPoint) -> DrawEndOutcome {
    assert_eq!(begin(s, tool, from), GestureClaim::Claimed);
    draw_gesture_update(s, false, to);
    end(s, to)
}

#[test]
fn draw_gesture_is_denied_while_panning_or_typing() {
    let mut s = session();
    assert_eq!(begin(&mut s, ToolKind::Pan, p(5, 5)), GestureClaim::Denied);
    assert_eq!(begin(&mut s, ToolKind::Text, p(5, 5)), GestureClaim::Denied);
    let text_sizes = sizes(&s);
    let snapshot = s.tools.objects().to_vec();
    assert_eq!(
        draw_gesture_begin(&mut s, ToolKind::Rectangle, true, p(5, 5), &text_sizes, snapshot),
        GestureClaim::Denied
    );
    assert!(s.status.is_empty());
    assert!(s.drag_preview.is_none());
}

#[test]
fn rectangle_drag_places_and_selects_a_rectangle() {
    let mut s = session();
    assert_eq!(begin(&mut s, ToolKind::Rectangle, p(10, 10)), GestureClaim::Claimed);
    assert_eq!(s.status, "Rect drag started");
    assert_eq!(
        s.drag_preview,
        Some(ToolDragPreview {
            tool: ToolKind::Rectangle,
            start: p(10, 10),
            current: p(10, 10)
        })
    );
    draw_gesture_update(&mut s, false, p(40, 30));
    assert_eq!(s.drag_preview.map(|preview| preview.current), Some(p(40, 30)));
    assert_eq!(end(&mut s, p(40, 30)), DrawEndOutcome::Done);

    assert_eq!(s.status, "Rect object #1 created");
    assert_eq!(s.selected_object_ids, vec![1]);
    assert!(s.has_unsaved_changes);
    assert_eq!(s.history.undo_depth(), 1);
    match s.tools.object(1) {
        Some(ToolObject::Rectangle(rect)) => {
            assert_eq!((rect.x, rect.y, rect.width, rect.height), (10, 10, 30, 20))
        }
        other => panic!("unexpected object {other:?}"),
    }
}

#[test]
fn zero_length_arrow_drag_is_reported() {
    let mut s = session();
    drag(&mut s, ToolKind::Arrow, p(7, 7), p(7, 7));
    assert_eq!(s.status, "Arrow drag ignored: InvalidArrowGeometry");
    assert!(s.tools.objects().is_empty());
    assert!(!s.has_unsaved_changes);
}

#[test]
fn select_drag_moves_the_grabbed_object() {
    let mut s = session();
    drag(&mut s, ToolKind::Rectangle, p(10, 10), p(40, 40));
    assert_eq!(begin(&mut s, ToolKind::Select, p(25, 25)), GestureClaim::Claimed);
    assert_eq!(s.status, "selected object drag started");
    assert!(matches!(s.object_drag, Some(ObjectDragState::Move { .. })));
    assert_eq!(s.history.undo_depth(), 2);
    draw_gesture_update(&mut s, false, p(35, 30));
    match s.tools.object(1) {
        Some(ToolObject::Rectangle(rect)) => assert_eq!((rect.x, rect.y), (20, 15)),
        other => panic!("unexpected object {other:?}"),
    }
    assert_eq!(end(&mut s, p(35, 30)), DrawEndOutcome::Done);
    assert_eq!(s.status, "moved 1 object(s)");
    assert!(s.object_drag.is_none());
}

#[test]
fn select_drag_on_corner_resizes_the_object() {
    let mut s = session();
    drag(&mut s, ToolKind::Rectangle, p(10, 10), p(40, 40));
    s.selected_object_ids.clear();
    assert_eq!(begin(&mut s, ToolKind::Select, p(41, 39)), GestureClaim::Claimed);
    assert!(matches!(
        s.object_drag,
        Some(ObjectDragState::ResizeObject { object_id: 1, .. })
    ));
    assert_eq!(s.selected_object_ids, vec![1]);
    draw_gesture_update(&mut s, false, p(60, 50));
    end(&mut s, p(60, 50));
    assert_eq!(s.status, "rectangle resized");
    match s.tools.object(1) {
        Some(ToolObject::Rectangle(rect)) => {
            assert_eq!((rect.x, rect.y, rect.width, rect.height), (10, 10, 50, 40))
        }
        other => panic!("unexpected object {other:?}"),
    }
}

#[test]
fn pen_drag_draws_and_finishes_a_stroke() {
    let mut s = session();
    assert_eq!(begin(&mut s, ToolKind::Pen, p(3, 4)), GestureClaim::Claimed);
    assert_eq!(s.active_pen_stroke, Some(1));
    draw_gesture_update(&mut s, false, p(5, -6));
    assert_eq!(s.status, "pen stroke point (5, -6)");
    end(&mut s, p(9, 9));
    assert_eq!(s.status, "pen stroke finalized at (9, 9)");
    assert_eq!(s.active_pen_stroke, None);
    assert_eq!(s.selected_object_ids, vec![1]);
    match s.tools.object(1) {
        Some(ToolObject::Pen(stroke)) => {
            assert!(stroke.finalized);
            assert_eq!(stroke.points.len(), 3);
        }
        other => panic!("unexpected object {other:?}"),
    }
}

#[test]
fn crop_drag_frames_then_moves_pending_crop() {
    let mut s = session();
    drag(&mut s, ToolKind::Crop, p(10, 10), p(80, 70));
    assert_eq!(s.status, "crop frame ready 70x60 at (10, 10)");
    let crop = s.pending_crop.expect("pending crop");
    assert_eq!((crop.x, crop.y, crop.width, crop.height), (10, 10, 70, 60));
    assert!(s.tools.objects().is_empty());

    assert_eq!(begin(&mut s, ToolKind::Crop, p(40, 40)), GestureClaim::Claimed);
    assert_eq!(s.status, "crop frame move started");
    draw_gesture_update(&mut s, false, p(300, 50));
    let moved = s.pending_crop.expect("pending crop");
    assert_eq!((moved.x, moved.y), (130, 20));
    end(&mut s, p(300, 50));
    assert_eq!(s.status, "crop frame updated");

    assert_eq!(begin(&mut s, ToolKind::Crop, p(131, 21)), GestureClaim::Claimed);
    assert_eq!(s.status, "crop frame resize started");

    let mut tiny = session();
    drag(&mut tiny, ToolKind::Crop, p(10, 10), p(15, 15));
    assert_eq!(tiny.status, "crop drag ignored: InvalidCropGeometry");
    assert!(tiny.pending_crop.is_none());
}

#[test]
fn select_box_drag_selects_topmost_touched_object() {
    let mut s = session();
    drag(&mut s, ToolKind::Rectangle, p(10, 10), p(20, 20));
    drag(&mut s, ToolKind::Rectangle, p(15, 15), p(30, 30));
    drag(&mut s, ToolKind::Select, p(150, 90), p(190, 95));
    assert_eq!(s.status, "object selection cleared");
    assert!(s.selected_object_ids.is_empty());
    drag(&mut s, ToolKind::Select, p(100, 90), p(12, 12));
    assert_eq!(s.status, "selected object #2");
    assert_eq!(s.selected_object_ids, vec![2]);
}

#[test]
fn recognition_drag_hands_its_region_to_the_caller() {
    let mut s = session();
    assert_eq!(
        drag(&mut s, ToolKind::Ocr, p(50, 40), p(10, 20)),
        DrawEndOutcome::RecognizeRegion {
            x: 10,
            y: 20,
            width: 40,
            height: 20
        }
    );
    drag(&mut s, ToolKind::Ocr, p(50, 40), p(50, 60));
    assert_eq!(s.status, "OCR drag too small");
    begin(&mut s, ToolKind::Ocr, p(1, 1));
    let text_sizes = sizes(&s);
    assert_eq!(
        draw_gesture_end(&mut s, p(30, 30), &text_sizes, true),
        DrawEndOutcome::Done
    );
    assert_eq!(s.status, "OCR already in progress");
}

#[test]
fn history_buttons_step_through_drawn_objects() {
    let mut s = session();
    assert!(!apply_history_action(&mut s, EditorHistoryAction::Undo));
    assert_eq!(s.status, "undo stack empty");
    drag(&mut s, ToolKind::Rectangle, p(10, 10), p(40, 40));
    drag(&mut s, ToolKind::Crop, p(0, 0), p(90, 90));
    assert!(s.pending_crop.is_some());
    assert_eq!(s.selected_object_ids, vec![1]);

    assert!(apply_history_action(&mut s, EditorHistoryAction::Undo));
    assert_eq!(s.status, "undo applied");
    assert!(s.tools.objects().is_empty());
    assert!(s.selected_object_ids.is_empty());
    assert!(s.pending_crop.is_none());

    assert!(apply_history_action(&mut s, EditorHistoryAction::Redo));
    assert_eq!(s.status, "redo applied");
    assert_eq!(s.tools.objects().len(), 1);
    assert!(!apply_history_action(&mut s, EditorHistoryAction::Redo));
    assert_eq!(s.status, "redo stack empty");
}
