//! What a pointer drag on the editor canvas does. A drag begins, moves and ends; each step
//! is decided here from the editor's state, the active tool and the pointer's position on
//! the image, and changes the placed objects, the selection, the undo history, the pending
//! crop box and the status line. The caller turns canvas coordinates into image points,
//! redraws, and runs recognition when a drag asks for it.
//!
//! As for picking, callers pass one measured `(width, height)` per placed object for text
//! boxes, and a copy of the placed objects, which is saved for undo where a step edits them.

use vstd::prelude::*;

use crate::arith::{clamp_i32, sat_add_i32, sat_sub_i32, spec_clamp, spec_max, spec_sat_i32};
use crate::chars::{append_chars, chars_of, copy_text, string_from_chars};
use crate::numbers::{decimal_chars, signed_decimal_chars, spec_decimal, spec_signed_decimal};
use crate::geometry::ToolPoint;
use super::history::{spec_applied_message, spec_empty_message, spec_history_step, EditorHistory, EditorHistoryAction};
use super::interaction::{ensure_selected_object_exists, spec_existing_ids};
use super::tools::selection::spec_replaced;
use super::hit_test::{
    spec_drag_box_ids, spec_first_hit, spec_hit_test_order, top_object_id_at_point,
    top_object_id_in_drag_box,
};
use super::interaction::{
    normalize_tool_box, resize_object_from_handle, resize_status_label, resized_crop_from_handle,
    spec_crop_resize_defined, spec_drag_spans_fit, spec_normalize_tool_box, spec_resize_defined,
    spec_resize_outcome, spec_resized_crop, point_in_bounds, rectangle_handle_at_point, resizable_object_handle_at_point,
    spec_handle_at_point, spec_handle_test_defined, spec_len_i32, spec_object_handle_at_point,
    spec_object_handle_test_defined, spec_point_in_bounds, spec_tool_kind_label, tool_kind_label,
    RectangleHandle,
    ResizableObjectKind,
};
use super::tools::selection::{spec_move_defined, spec_moved};
use super::interaction::spec_resize_status;
use super::tools::{
    lemma_index_of, spec_crop_box, spec_find, spec_index_from, spec_index_of, spec_next,
    spec_span, spec_unchanged_except, ArrowElement, BlurElement, BlurRegion, CropElement,
    CropOptions, EditorTools, PenPoint, RectangleElement, RectangleOptions, ToolError, ToolKind,
    ToolObject, CROP_MIN_SIZE,
};

verus! {

/// What a drag that grabbed something is doing.
#[derive(Debug, Clone)]
pub enum ObjectDragState {
    /// Moving the listed objects; `last` is where the pointer was when they last moved.
    Move { object_ids: Vec<u64>, last: ToolPoint },
    /// Resizing an object by one of its corners.
    ResizeObject { object_id: u64, kind: ResizableObjectKind, handle: RectangleHandle },
    /// Moving the pending crop box from where it was when the drag began.
    MovePendingCrop { start: ToolPoint, origin: CropElement },
    /// Resizing the pending crop box by one of its corners.
    ResizePendingCrop { handle: RectangleHandle, origin: CropElement },
}

/// The outline shown while a tool's drag is in progress.
#[derive(Debug, Clone, Copy, PartialEq, Eq, Structural)]
pub struct ToolDragPreview {
    pub tool: ToolKind,
    pub start: ToolPoint,
    pub current: ToolPoint,
}

/// Whether the canvas takes a drag or lets it go to other handlers.
#[derive(Debug, Clone, Copy, PartialEq, Eq, Structural)]
pub enum GestureClaim {
    Claimed,
    Denied,
}

/// Everything a canvas drag reads and changes.
#[derive(Debug)]
pub struct EditorCanvasSession {
    pub tools: EditorTools,
    pub history: EditorHistory,
    pub selected_object_ids: Vec<u64>,
    pub object_drag: Option<ObjectDragState>,
    pub pending_crop: Option<CropElement>,
    pub drag_preview: Option<ToolDragPreview>,
    pub active_pen_stroke: Option<u64>,
    pub has_unsaved_changes: bool,
    pub status: String,
    pub image_width: i32,
    pub image_height: i32,
}

impl EditorCanvasSession {
    /// A session on `tools` over an image of the given size, with nothing selected, no
    /// history and no drag in progress.
    pub fn new(tools: EditorTools, image_width: i32, image_height: i32) -> (s: Self)
        ensures
            s.tools == tools,
            s.history.spec_undo().len() == 0,
            s.history.spec_redo().len() == 0,
            s.selected_object_ids@.len() == 0,
            s.object_drag is None,
            s.pending_crop is None,
            s.drag_preview is None,
            s.active_pen_stroke is None,
            !s.has_unsaved_changes,
            s.status@.len() == 0,
            s.image_width == image_width,
            s.image_height == image_height,
    {
        EditorCanvasSession {
            tools,
            history: EditorHistory::new(),
            selected_object_ids: Vec::new(),
            object_drag: None,
            pending_crop: None,
            drag_preview: None,
            active_pen_stroke: None,
            has_unsaved_changes: false,
            status: string_from_chars(&Vec::new()),
            image_width,
            image_height,
        }
    }
}

/// Text made of two pieces.
fn joined(a: &str, b: &str) -> (s: String)
    ensures
        s@ == a@ + b@,
{
    let mut v = chars_of(a);
    append_chars(&mut v, &chars_of(b));
    string_from_chars(&v)
}

/// How a drag begins.
#[derive(Debug, Clone, Copy, PartialEq, Eq, Structural)]
pub enum DrawBeginCase {
    /// The drag is left to panning or text clicks.
    Denied,
    /// A corner of the pending crop box was grabbed.
    ResizePendingCrop(RectangleHandle),
    /// The inside of the pending crop box was grabbed.
    MovePendingCrop,
    /// A corner of the object under the pointer was grabbed.
    ResizeObject(u64, ResizableObjectKind, RectangleHandle),
    /// The object under the pointer was grabbed to move it.
    MoveObject(u64),
    /// The active tool starts drawing.
    StartTool,
}

/// The pending crop box as a box.
pub open spec fn spec_crop_rect(c: CropElement) -> (i32, i32, u32, u32) {
    (c.x, c.y, c.width, c.height)
}

/// The topmost object under `start`.
pub open spec fn spec_pick(s: EditorCanvasSession, start: ToolPoint, sizes: Seq<(u32, u32)>) -> Option<u64> {
    spec_first_hit(
        s.tools.spec_objects(),
        sizes,
        spec_hit_test_order(s.tools.spec_objects()),
        start,
        false,
        spec_hit_test_order(s.tools.spec_objects()).len() as int,
    )
}

/// How a drag with `tool` from `start` begins: panning and the text tool leave it alone;
/// with the crop tool, a pending crop box is resized by a corner or moved from inside;
/// with the select tool, the object under the pointer is resized by a corner or moved;
/// otherwise the tool starts drawing.
pub open spec fn spec_draw_begin_case(
    s: EditorCanvasSession,
    tool: ToolKind,
    space_pan_pressed: bool,
    start: ToolPoint,
    sizes: Seq<(u32, u32)>,
) -> DrawBeginCase {
    if space_pan_pressed || tool == ToolKind::Pan || tool == ToolKind::Text {
        DrawBeginCase::Denied
    } else if tool == ToolKind::Crop && s.pending_crop is Some && spec_handle_at_point(
        s.pending_crop->0.x,
        s.pending_crop->0.y,
        s.pending_crop->0.width,
        s.pending_crop->0.height,
        start,
    ) is Some {
        DrawBeginCase::ResizePendingCrop(
            spec_handle_at_point(
                s.pending_crop->0.x,
                s.pending_crop->0.y,
                s.pending_crop->0.width,
                s.pending_crop->0.height,
                start,
            )->0,
        )
    } else if tool == ToolKind::Crop && s.pending_crop is Some && spec_point_in_bounds(
        start,
        s.pending_crop->0.x,
        s.pending_crop->0.y,
        s.pending_crop->0.width,
        s.pending_crop->0.height,
        0,
    ) {
        DrawBeginCase::MovePendingCrop
    } else if tool == ToolKind::Select && spec_pick(s, start, sizes) is Some {
        let id = spec_pick(s, start, sizes)->0;
        match spec_find(s.tools.spec_objects(), id) {
            Some(o) => match spec_object_handle_at_point(o, start) {
                Some((kind, handle)) => DrawBeginCase::ResizeObject(id, kind, handle),
                None => DrawBeginCase::MoveObject(id),
            },
            None => DrawBeginCase::MoveObject(id),
        }
    } else {
        DrawBeginCase::StartTool
    }
}

/// Beginning a drag is defined: the corner tests it makes do not overflow.
pub open spec fn spec_draw_begin_defined(
    s: EditorCanvasSession,
    tool: ToolKind,
    start: ToolPoint,
    sizes: Seq<(u32, u32)>,
) -> bool {
    &&& sizes.len() == s.tools.spec_objects().len()
    &&& (tool == ToolKind::Crop && s.pending_crop is Some) ==> spec_handle_test_defined(
        s.pending_crop->0.x,
        s.pending_crop->0.y,
        s.pending_crop->0.width,
        s.pending_crop->0.height,
        start,
    )
    &&& (tool == ToolKind::Select && spec_pick(s, start, sizes) is Some && spec_find(
        s.tools.spec_objects(),
        spec_pick(s, start, sizes)->0,
    ) is Some) ==> spec_object_handle_test_defined(
        spec_find(s.tools.spec_objects(), spec_pick(s, start, sizes)->0)->0,
        start,
    )
}

/// The selection after grabbing `id`: kept when `id` already leads it, else just `id`.
pub open spec fn spec_grab_selection(selected: Seq<u64>, id: u64) -> Seq<u64> {
    if selected.len() > 0 && selected[0] == id {
        selected
    } else {
        seq![id]
    }
}

/// Tools whose drag edits the objects right away, so that the objects are saved for undo
/// first.
pub open spec fn spec_tool_saves_history(tool: ToolKind) -> bool {
    tool == ToolKind::Pen || tool == ToolKind::Blur || tool == ToolKind::Arrow || tool
        == ToolKind::Rectangle
}

fn draw_begin_case(
    s: &EditorCanvasSession,
    tool: ToolKind,
    space_pan_pressed: bool,
    start: ToolPoint,
    text_sizes: &Vec<(u32, u32)>,
) -> (c: DrawBeginCase)
    requires
        spec_draw_begin_defined(*s, tool, start, text_sizes@),
    ensures
        c == spec_draw_begin_case(*s, tool, space_pan_pressed, start, text_sizes@),
{
    if space_pan_pressed || tool == ToolKind::Pan || tool == ToolKind::Text {
        return DrawBeginCase::Denied;
    }
    if tool == ToolKind::Crop {
        if let Some(crop) = &s.pending_crop {
            let crop_rect = RectangleElement {
                id: crop.id,
                x: crop.x,
                y: crop.y,
                width: crop.width,
                height: crop.height,
                options: RectangleOptions::default(),
            };
            if let Some(handle) = rectangle_handle_at_point(&crop_rect, start) {
                return DrawBeginCase::ResizePendingCrop(handle);
            }
            if point_in_bounds(start, crop.x, crop.y, crop.width, crop.height, 0) {
                return DrawBeginCase::MovePendingCrop;
            }
        }
    }
    if tool == ToolKind::Select {
        if let Some(hit_id) = top_object_id_at_point(&s.tools, start, text_sizes) {
            return match s.tools.object(hit_id) {
                Some(object) => match resizable_object_handle_at_point(object, start) {
                    Some((kind, handle)) => DrawBeginCase::ResizeObject(hit_id, kind, handle),
                    None => DrawBeginCase::MoveObject(hit_id),
                },
                None => DrawBeginCase::MoveObject(hit_id),
            };
        }
    }
    DrawBeginCase::StartTool
}

/// `a` and `b` agree on everything but the drag in progress and the status line.
pub open spec fn spec_same_but_drag(a: EditorCanvasSession, b: EditorCanvasSession) -> bool {
    &&& a.tools == b.tools
    &&& a.history == b.history
    &&& a.selected_object_ids == b.selected_object_ids
    &&& a.pending_crop == b.pending_crop
    &&& a.drag_preview == b.drag_preview
    &&& a.active_pen_stroke == b.active_pen_stroke
    &&& a.has_unsaved_changes == b.has_unsaved_changes
    &&& a.image_width == b.image_width
    &&& a.image_height == b.image_height
}

/// `after`'s history is `before`'s with `snapshot` saved for undo and nothing to redo.
pub open spec fn spec_saved_for_undo(after: EditorHistory, before: EditorHistory, snapshot: Seq<ToolObject>) -> bool {
    &&& after.spec_undo() == before.spec_undo().push(snapshot)
    &&& after.spec_redo() == Seq::<Seq<ToolObject>>::empty()
}

/// Begins a drag with `tool` at `start`, as `spec_draw_begin_case` decides:
/// - denied: nothing changes;
/// - a pending crop corner or inside: that crop drag starts;
/// - an object under the select tool: the objects are saved for undo, the object becomes
///   the selection unless it already leads it, and its resize or move starts;
/// - otherwise the tool is selected and starts: drawing tools save the objects for undo
///   first, the pen begins a stroke, the other tools show a drag outline, and the crop
///   tool drops the pending crop box.
pub fn draw_gesture_begin(
    s: &mut EditorCanvasSession,
    tool: ToolKind,
    space_pan_pressed: bool,
    start: ToolPoint,
    text_sizes: &Vec<(u32, u32)>,
    snapshot: Vec<ToolObject>,
) -> (claim: GestureClaim)
    requires
        spec_draw_begin_defined(*old(s), tool, start, text_sizes@),
        snapshot@ == old(s).tools.spec_objects(),
    ensures
        (claim == GestureClaim::Denied) == (spec_draw_begin_case(
            *old(s),
            tool,
            space_pan_pressed,
            start,
            text_sizes@,
        ) == DrawBeginCase::Denied),
        match spec_draw_begin_case(*old(s), tool, space_pan_pressed, start, text_sizes@) {
            DrawBeginCase::Denied => *final(s) == *old(s),
            DrawBeginCase::ResizePendingCrop(handle) => {
                &&& spec_same_but_drag(*final(s), *old(s))
                &&& final(s).object_drag == Some(
                    ObjectDragState::ResizePendingCrop { handle, origin: old(s).pending_crop->0 },
                )
                &&& final(s).status@ == "crop frame resize started"@
            },
            DrawBeginCase::MovePendingCrop => {
                &&& spec_same_but_drag(*final(s), *old(s))
                &&& final(s).object_drag == Some(
                    ObjectDragState::MovePendingCrop { start, origin: old(s).pending_crop->0 },
                )
                &&& final(s).status@ == "crop frame move started"@
            },
            DrawBeginCase::ResizeObject(id, kind, handle) => {
                &&& final(s).tools == old(s).tools
                &&& spec_saved_for_undo(final(s).history, old(s).history, snapshot@)
                &&& final(s).selected_object_ids@ == spec_grab_selection(old(s).selected_object_ids@, id)
                &&& final(s).object_drag == Some(ObjectDragState::ResizeObject { object_id: id, kind, handle })
                &&& final(s).pending_crop == old(s).pending_crop
                &&& final(s).drag_preview == old(s).drag_preview
                &&& final(s).active_pen_stroke == old(s).active_pen_stroke
                &&& final(s).has_unsaved_changes == old(s).has_unsaved_changes
                &&& final(s).status@ == "selected object drag started"@
            },
            DrawBeginCase::MoveObject(id) => {
                &&& final(s).tools == old(s).tools
                &&& spec_saved_for_undo(final(s).history, old(s).history, snapshot@)
                &&& final(s).selected_object_ids@ == spec_grab_selection(old(s).selected_object_ids@, id)
                &&& final(s).object_drag matches Some(ObjectDragState::Move { object_ids, last })
                    && object_ids@ == seq![id] && last == start
                &&& final(s).pending_crop == old(s).pending_crop
                &&& final(s).drag_preview == old(s).drag_preview
                &&& final(s).active_pen_stroke == old(s).active_pen_stroke
                &&& final(s).has_unsaved_changes == old(s).has_unsaved_changes
                &&& final(s).status@ == "selected object drag started"@
            },
            DrawBeginCase::StartTool => {
                &&& if spec_tool_saves_history(tool) {
                    spec_saved_for_undo(final(s).history, old(s).history, snapshot@)
                } else {
                    final(s).history == old(s).history
                }
                &&& final(s).tools.spec_active_tool() == tool
                &&& final(s).tools.spec_blur_options() == old(s).tools.spec_blur_options()
                &&& final(s).tools.spec_pen_options() == old(s).tools.spec_pen_options()
                &&& final(s).tools.spec_arrow_options() == old(s).tools.spec_arrow_options()
                &&& final(s).tools.spec_rectangle_options() == old(s).tools.spec_rectangle_options()
                &&& final(s).tools.spec_crop_options() == old(s).tools.spec_crop_options()
                &&& final(s).tools.spec_text_options() == old(s).tools.spec_text_options()
                &&& if tool == ToolKind::Pen {
                    &&& final(s).tools.spec_objects().drop_last() == old(s).tools.spec_objects()
                    &&& final(s).tools.spec_objects().len() == old(s).tools.spec_objects().len() + 1
                    &&& final(s).tools.spec_objects().last() matches ToolObject::Pen(stroke)
                        && stroke.id == old(s).tools.spec_next_id()
                        && stroke.points@ == seq![PenPoint { x: start.x, y: start.y }]
                        && stroke.options == old(s).tools.spec_pen_options() && !stroke.finalized
                    &&& final(s).tools.spec_active_pen_stroke() == Some(old(s).tools.spec_next_id())
                    &&& final(s).tools.spec_active_text_box() == old(s).tools.spec_active_text_box()
                    &&& final(s).active_pen_stroke == Some(old(s).tools.spec_next_id())
                    &&& final(s).drag_preview is None
                } else {
                    &&& final(s).tools.spec_same_objects(&old(s).tools)
                    &&& final(s).active_pen_stroke is None
                    &&& final(s).drag_preview == Some(ToolDragPreview { tool, start, current: start })
                }
                &&& final(s).pending_crop == (if tool == ToolKind::Crop {
                    None
                } else {
                    old(s).pending_crop
                })
                &&& final(s).selected_object_ids == old(s).selected_object_ids
                &&& final(s).object_drag == old(s).object_drag
                &&& final(s).has_unsaved_changes == old(s).has_unsaved_changes
                &&& final(s).status@ == spec_tool_kind_label(tool) + " drag started"@
            },
        },
        final(s).image_width == old(s).image_width,
        final(s).image_height == old(s).image_height,
{
    let case = draw_begin_case(s, tool, space_pan_pressed, start, text_sizes);
    match case {
        DrawBeginCase::Denied => {
            GestureClaim::Denied
        },
        DrawBeginCase::ResizePendingCrop(handle) => {
            let origin = match s.pending_crop {
                Some(c) => c,
                None => return GestureClaim::Denied,
            };
            s.object_drag = Some(ObjectDragState::ResizePendingCrop { handle, origin });
            s.status = copy_text("crop frame resize started");
            GestureClaim::Claimed
        },
        DrawBeginCase::MovePendingCrop => {
            let origin = match s.pending_crop {
                Some(c) => c,
                None => return GestureClaim::Denied,
            };
            s.object_drag = Some(ObjectDragState::MovePendingCrop { start, origin });
            s.status = copy_text("crop frame move started");
            GestureClaim::Claimed
        },
        DrawBeginCase::ResizeObject(id, kind, handle) => {
            grab_object(&mut s.selected_object_ids, id);
            s.history.record_undo_snapshot(snapshot);
            s.object_drag = Some(ObjectDragState::ResizeObject { object_id: id, kind, handle });
            s.status = copy_text("selected object drag started");
            GestureClaim::Claimed
        },
        DrawBeginCase::MoveObject(id) => {
            grab_object(&mut s.selected_object_ids, id);
            s.history.record_undo_snapshot(snapshot);
            let mut object_ids: Vec<u64> = Vec::new();
            object_ids.push(id);
            s.object_drag = Some(ObjectDragState::Move { object_ids, last: start });
            s.status = copy_text("selected object drag started");
            GestureClaim::Claimed
        },
        DrawBeginCase::StartTool => {
            if tool == ToolKind::Pen || tool == ToolKind::Blur || tool == ToolKind::Arrow || tool
                == ToolKind::Rectangle {
                s.history.record_undo_snapshot(snapshot);
            }
            s.tools.select_tool(tool);
            match tool {
                ToolKind::Pen => {
                    let stroke_id = s.tools.begin_pen_stroke(start);
                    s.active_pen_stroke = Some(stroke_id);
                    s.drag_preview = None;
                },
                ToolKind::Crop => {
                    s.active_pen_stroke = None;
                    s.pending_crop = None;
                    s.drag_preview = Some(ToolDragPreview { tool, start, current: start });
                },
                _ => {
                    s.active_pen_stroke = None;
                    s.drag_preview = Some(ToolDragPreview { tool, start, current: start });
                },
            }
            s.status = joined(tool_kind_label(tool), " drag started");
            GestureClaim::Claimed
        },
    }
}

/// Makes `id` the selection unless it already leads it.
fn grab_object(selected: &mut Vec<u64>, id: u64)
    ensures
        final(selected)@ == spec_grab_selection(old(selected)@, id),
{
    if selected.len() > 0 && selected[0] == id {
        return;
    }
    selected.clear();
    selected.push(id);
    assert(selected@ =~= seq![id]);
}

/// Looking up an id depends only on the ids at each position.
proof fn lemma_index_from_same_ids(a: Seq<ToolObject>, b: Seq<ToolObject>, id: u64, i: int)
    requires
        a.len() == b.len(),
        forall|j: int| 0 <= j < a.len() ==> #[trigger] a[j].spec_id() == b[j].spec_id(),
    ensures
        spec_index_from(a, id, i) == spec_index_from(b, id, i),
    decreases a.len() - i,
{
    if 0 <= i < a.len() {
        lemma_index_from_same_ids(a, b, id, i + 1);
    }
}

/// Moving an object keeps its id.
proof fn lemma_moved_keeps_id(before: ToolObject, after: ToolObject, dx: i32, dy: i32, w: i32, h: i32)
    requires
        spec_moved(before, after, dx, dy, w, h),
    ensures
        after.spec_id() == before.spec_id(),
{
}

/// One step of moving: the object with `id`, if any, moved by `(dx, dy)` as
/// `EditorTools::move_object_by` does; without one nothing changes.
pub open spec fn spec_move_step(a: EditorTools, b: EditorTools, id: u64, dx: i32, dy: i32, w: i32, h: i32) -> bool {
    if spec_find(a.spec_objects(), id) is None {
        b == a
    } else {
        let i = spec_index_of(a.spec_objects(), id);
        &&& spec_unchanged_except(a.spec_objects(), b.spec_objects(), i)
        &&& spec_moved(a.spec_objects()[i], b.spec_objects()[i], dx, dy, w, h)
        &&& b.spec_next_id() == a.spec_next_id()
        &&& b.spec_active_pen_stroke() == a.spec_active_pen_stroke()
        &&& b.spec_active_text_box() == a.spec_active_text_box()
        &&& b.spec_same_settings(&a)
    }
}

/// `after` is `before` with the objects named by `ids` moved by `(dx, dy)`, one after the
/// other.
pub open spec fn spec_moves(before: EditorTools, after: EditorTools, ids: Seq<u64>, dx: i32, dy: i32, w: i32, h: i32) -> bool
    decreases ids.len(),
{
    if ids.len() == 0 {
        after == before
    } else {
        exists|mid: EditorTools|
            #![trigger spec_move_step(mid, after, ids.last(), dx, dy, w, h)]
            spec_moves(before, mid, ids.drop_last(), dx, dy, w, h) && spec_move_step(
                mid,
                after,
                ids.last(),
                dx,
                dy,
                w,
                h,
            )
    }
}

/// Moving the listed objects is defined: the ids are distinct and each names, if anything,
/// an object that fits on the image.
pub open spec fn spec_moves_defined(tools: EditorTools, ids: Seq<u64>, w: i32, h: i32) -> bool {
    &&& forall|j: int, k: int| 0 <= j < k < ids.len() ==> #[trigger] ids[j] != #[trigger] ids[k]
    &&& forall|k: int|
        0 <= k < ids.len() ==> (#[trigger] spec_find(tools.spec_objects(), ids[k]) matches Some(o)
            ==> spec_move_defined(o, w, h))
}

/// Whether any of `ids` names an object.
pub open spec fn spec_any_found(objects: Seq<ToolObject>, ids: Seq<u64>) -> bool {
    exists|k: int| 0 <= k < ids.len() && #[trigger] spec_find(objects, ids[k]) is Some
}

/// A move of one object leaves the lookup of every other id as it was.
proof fn lemma_move_step_keeps_other_lookups(
    a: EditorTools,
    b: EditorTools,
    id: u64,
    other: u64,
    dx: i32,
    dy: i32,
    w: i32,
    h: i32,
)
    requires
        spec_move_step(a, b, id, dx, dy, w, h),
        other != id,
    ensures
        spec_find(b.spec_objects(), other) == spec_find(a.spec_objects(), other),
        spec_find(b.spec_objects(), id) is Some == spec_find(a.spec_objects(), id) is Some,
{
    if spec_find(a.spec_objects(), id) is Some {
        let oa = a.spec_objects();
        let ob = b.spec_objects();
        let i = spec_index_of(oa, id);
        lemma_index_of(oa, id);
        lemma_moved_keeps_id(oa[i], ob[i], dx, dy, w, h);
        assert forall|j: int| 0 <= j < oa.len() implies #[trigger] oa[j].spec_id() == ob[j].spec_id() by {
            if j != i {
                assert(ob[j] == oa[j]);
            }
        }
        lemma_index_from_same_ids(oa, ob, other, 0);
        lemma_index_from_same_ids(oa, ob, id, 0);
        lemma_index_of(oa, other);
        if spec_index_of(oa, other) != -1 {
            assert(spec_index_of(oa, other) != i);
        }
    }
}

/// Moves the objects named by `ids` by `(dx, dy)`; reports whether any was found.
fn move_objects(tools: &mut EditorTools, ids: &Vec<u64>, dx: i32, dy: i32, w: i32, h: i32) -> (moved: bool)
    requires
        spec_moves_defined(*old(tools), ids@, w, h),
    ensures
        spec_moves(*old(tools), *final(tools), ids@, dx, dy, w, h),
        moved == spec_any_found(old(tools).spec_objects(), ids@),
{
    let ghost start = *tools;
    let mut moved = false;
    let mut i: usize = 0;
    assert(ids@.take(0) =~= Seq::<u64>::empty());
    while i < ids.len()
        invariant
            0 <= i <= ids@.len(),
            spec_moves_defined(start, ids@, w, h),
            spec_moves(start, *tools, ids@.take(i as int), dx, dy, w, h),
            forall|k: int| i <= k < ids@.len() ==> #[trigger] spec_find(tools.spec_objects(), ids@[k]) == spec_find(start.spec_objects(), ids@[k]),
            moved == (exists|k: int| 0 <= k < i && #[trigger] spec_find(start.spec_objects(), ids@[k]) is Some),
        decreases ids.len() - i,
    {
        let id = ids[i];
        let ghost before = *tools;
        assert(spec_find(tools.spec_objects(), ids@[i as int]) == spec_find(start.spec_objects(), ids@[i as int]));
        let result = tools.move_object_by(id, dx, dy, w, h);
        proof {
            assert(spec_move_step(before, *tools, id, dx, dy, w, h));
            assert forall|k: int| i + 1 <= k < ids@.len() implies #[trigger] spec_find(tools.spec_objects(), ids@[k]) == spec_find(start.spec_objects(), ids@[k]) by {
                assert(ids@[k] != ids@[i as int]);
                lemma_move_step_keeps_other_lookups(before, *tools, id, ids@[k], dx, dy, w, h);
            }
            let next = ids@.take(i + 1);
            assert(next.drop_last() =~= ids@.take(i as int));
            assert(next.last() == id);
            assert(spec_moves(start, *tools, next, dx, dy, w, h));
        }
        if result.is_ok() {
            moved = true;
        }
        proof {
            if result.is_ok() {
                assert(spec_find(start.spec_objects(), ids@[i as int]) is Some);
            }
        }
        i = i + 1;
    }
    assert(ids@.take(ids@.len() as int) =~= ids@);
    moved
}

/// The pending crop box `origin` moved by the pointer's travel from `start` to `current`,
/// kept on the image.
pub open spec fn spec_moved_pending_crop(
    origin: CropElement,
    start: ToolPoint,
    current: ToolPoint,
    image_width: i32,
    image_height: i32,
) -> CropElement {
    let delta_x = spec_sat_i32(current.x - start.x);
    let delta_y = spec_sat_i32(current.y - start.y);
    let limit_x = spec_max(spec_sat_i32(image_width - spec_len_i32(origin.width)), 0);
    let limit_y = spec_max(spec_sat_i32(image_height - spec_len_i32(origin.height)), 0);
    CropElement {
        x: spec_clamp(spec_sat_i32(origin.x + delta_x), 0, limit_x) as i32,
        y: spec_clamp(spec_sat_i32(origin.y + delta_y), 0, limit_y) as i32,
        ..origin
    }
}

fn moved_pending_crop(
    origin: &CropElement,
    start: ToolPoint,
    current: ToolPoint,
    image_width: i32,
    image_height: i32,
) -> (c: CropElement)
    ensures
        c == spec_moved_pending_crop(*origin, start, current, image_width, image_height),
{
    let delta_x = sat_sub_i32(current.x, start.x);
    let delta_y = sat_sub_i32(current.y, start.y);
    let crop_width: i32 = if origin.width > i32::MAX as u32 { i32::MAX } else { origin.width as i32 };
    let crop_height: i32 = if origin.height > i32::MAX as u32 { i32::MAX } else { origin.height as i32 };
    let room_x = sat_sub_i32(image_width, crop_width);
    let room_y = sat_sub_i32(image_height, crop_height);
    let limit_x = if room_x > 0 { room_x } else { 0 };
    let limit_y = if room_y > 0 { room_y } else { 0 };
    CropElement {
        id: origin.id,
        x: clamp_i32(sat_add_i32(origin.x, delta_x), 0, limit_x),
        y: clamp_i32(sat_add_i32(origin.y, delta_y), 0, limit_y),
        width: origin.width,
        height: origin.height,
        options: origin.options,
    }
}

/// `b` is `a` with `point` added to the pen stroke `id` as `EditorTools::append_pen_point`
/// does; unchanged when `id` names no stroke.
pub open spec fn spec_point_appended(a: EditorTools, b: EditorTools, id: u64, point: ToolPoint) -> bool {
    if !(spec_find(a.spec_objects(), id) matches Some(ToolObject::Pen(_))) {
        b == a
    } else {
        let i = spec_index_of(a.spec_objects(), id);
        &&& spec_unchanged_except(a.spec_objects(), b.spec_objects(), i)
        &&& a.spec_objects()[i] matches ToolObject::Pen(before)
        &&& b.spec_objects()[i] matches ToolObject::Pen(after)
        &&& after.points@ == before.points@.push(PenPoint { x: point.x, y: point.y })
        &&& after.id == before.id && after.options == before.options && after.finalized
            == before.finalized
        &&& b.spec_next_id() == a.spec_next_id()
        &&& b.spec_active_pen_stroke() == a.spec_active_pen_stroke()
        &&& b.spec_active_text_box() == a.spec_active_text_box()
        &&& b.spec_same_settings(&a)
    }
}

/// `b` is `a` with the object `id` resized as `spec_resize_outcome` gives, if it gives
/// anything.
pub open spec fn spec_resized_in(
    a: EditorTools,
    b: EditorTools,
    id: u64,
    kind: ResizableObjectKind,
    handle: RectangleHandle,
    point: ToolPoint,
    w: i32,
    h: i32,
) -> bool {
    match spec_resize_outcome(a.spec_objects(), id, kind, handle, point, w, h) {
        None => b == a,
        Some(o) => {
            &&& b.spec_objects() == a.spec_objects().update(spec_index_of(a.spec_objects(), id), o)
            &&& b.spec_next_id() == a.spec_next_id()
            &&& b.spec_active_pen_stroke() == a.spec_active_pen_stroke()
            &&& b.spec_active_text_box() == a.spec_active_text_box()
            &&& b.spec_same_settings(&a)
        },
    }
}

/// Following the pointer is defined: a move's pointer travel fits in `i32` and the objects
/// can be moved, and a resize's corner arithmetic does not overflow.
pub open spec fn spec_draw_update_defined(s: EditorCanvasSession, current: ToolPoint) -> bool {
    match s.object_drag {
        Some(ObjectDragState::Move { object_ids, last }) => {
            &&& i32::MIN <= current.x - last.x <= i32::MAX
            &&& i32::MIN <= current.y - last.y <= i32::MAX
            &&& spec_moves_defined(s.tools, object_ids@, s.image_width, s.image_height)
        },
        Some(ObjectDragState::ResizeObject { object_id, kind, handle }) => spec_resize_defined(
            s.tools.spec_objects(),
            object_id,
            kind,
            handle,
            current,
            s.image_width,
            s.image_height,
        ),
        Some(ObjectDragState::ResizePendingCrop { handle, origin }) => spec_crop_resize_defined(
            origin,
            handle,
            current,
            s.image_width,
            s.image_height,
        ),
        _ => true,
    }
}

/// `a` and `b` agree on everything but the placed objects.
pub open spec fn spec_same_but_tools(a: EditorCanvasSession, b: EditorCanvasSession) -> bool {
    &&& a.history == b.history
    &&& a.selected_object_ids == b.selected_object_ids
    &&& a.pending_crop == b.pending_crop
    &&& a.drag_preview == b.drag_preview
    &&& a.active_pen_stroke == b.active_pen_stroke
    &&& a.has_unsaved_changes == b.has_unsaved_changes
    &&& a.image_width == b.image_width
    &&& a.image_height == b.image_height
}

/// Follows the pointer to `current` during a drag: a grabbed object or crop box moves or is
/// resized; otherwise the stroke being drawn gets the point, or the drag outline follows.
/// While space is held for panning nothing changes.
pub fn draw_gesture_update(s: &mut EditorCanvasSession, space_pan_pressed: bool, current: ToolPoint)
    requires
        spec_draw_update_defined(*old(s), current),
    ensures
        space_pan_pressed ==> *final(s) == *old(s),
        !space_pan_pressed ==> match old(s).object_drag {
            Some(ObjectDragState::Move { object_ids, last }) => {
                &&& spec_moves(
                    old(s).tools,
                    final(s).tools,
                    object_ids@,
                    (current.x - last.x) as i32,
                    (current.y - last.y) as i32,
                    old(s).image_width,
                    old(s).image_height,
                )
                &&& if spec_any_found(old(s).tools.spec_objects(), object_ids@) {
                    final(s).object_drag matches Some(ObjectDragState::Move { object_ids: ids, last: l })
                        && ids@ == object_ids@ && l == current
                } else {
                    final(s).object_drag == old(s).object_drag
                }
                &&& spec_same_but_tools(*final(s), *old(s))
                &&& final(s).status == old(s).status
            },
            Some(ObjectDragState::ResizeObject { object_id, kind, handle }) => {
                &&& spec_resized_in(
                    old(s).tools,
                    final(s).tools,
                    object_id,
                    kind,
                    handle,
                    current,
                    old(s).image_width,
                    old(s).image_height,
                )
                &&& final(s).object_drag == old(s).object_drag
                &&& spec_same_but_tools(*final(s), *old(s))
                &&& final(s).status == old(s).status
            },
            Some(ObjectDragState::MovePendingCrop { start, origin }) => {
                &&& final(s).pending_crop == Some(
                    spec_moved_pending_crop(origin, start, current, old(s).image_width, old(s).image_height),
                )
                &&& final(s).tools == old(s).tools
                &&& final(s).object_drag == old(s).object_drag
                &&& final(s).history == old(s).history
                &&& final(s).selected_object_ids == old(s).selected_object_ids
                &&& final(s).drag_preview == old(s).drag_preview
                &&& final(s).active_pen_stroke == old(s).active_pen_stroke
                &&& final(s).has_unsaved_changes == old(s).has_unsaved_changes
                &&& final(s).status == old(s).status
            },
            Some(ObjectDragState::ResizePendingCrop { handle, origin }) => {
                &&& final(s).pending_crop == match spec_resized_crop(
                    origin,
                    handle,
                    current,
                    old(s).image_width,
                    old(s).image_height,
                ) {
                    Some(next) => Some(next),
                    None => old(s).pending_crop,
                }
                &&& final(s).tools == old(s).tools
                &&& final(s).object_drag == old(s).object_drag
                &&& final(s).history == old(s).history
                &&& final(s).selected_object_ids == old(s).selected_object_ids
                &&& final(s).drag_preview == old(s).drag_preview
                &&& final(s).active_pen_stroke == old(s).active_pen_stroke
                &&& final(s).has_unsaved_changes == old(s).has_unsaved_changes
                &&& final(s).status == old(s).status
            },
            None => match old(s).active_pen_stroke {
                Some(id) => {
                    &&& spec_point_appended(old(s).tools, final(s).tools, id, current)
                    &&& spec_same_but_tools(*final(s), *old(s))
                    &&& final(s).object_drag == old(s).object_drag
                    &&& if spec_find(old(s).tools.spec_objects(), id) matches Some(ToolObject::Pen(_)) {
                        final(s).status@ == "pen stroke point ("@ + spec_signed_decimal(current.x as int)
                            + ", "@ + spec_signed_decimal(current.y as int) + ")"@
                    } else {
                        final(s).status == old(s).status
                    }
                },
                None => {
                    &&& final(s).drag_preview == match old(s).drag_preview {
                        Some(p) => Some(ToolDragPreview { current, ..p }),
                        None => None,
                    }
                    &&& final(s).tools == old(s).tools
                    &&& final(s).object_drag == old(s).object_drag
                    &&& final(s).history == old(s).history
                    &&& final(s).selected_object_ids == old(s).selected_object_ids
                    &&& final(s).pending_crop == old(s).pending_crop
                    &&& final(s).active_pen_stroke == old(s).active_pen_stroke
                    &&& final(s).has_unsaved_changes == old(s).has_unsaved_changes
                    &&& final(s).status == old(s).status
                },
            },
        },
{
    if space_pan_pressed {
        return;
    }
    let w = s.image_width;
    let h = s.image_height;
    match s.object_drag.take() {
        Some(ObjectDragState::Move { object_ids, last }) => {
            let delta_x = current.x - last.x;
            let delta_y = current.y - last.y;
            let moved = move_objects(&mut s.tools, &object_ids, delta_x, delta_y, w, h);
            let next_last = if moved { current } else { last };
            s.object_drag = Some(ObjectDragState::Move { object_ids, last: next_last });
        },
        Some(ObjectDragState::ResizeObject { object_id, kind, handle }) => {
            let _ = resize_object_from_handle(&mut s.tools, object_id, kind, handle, current, w, h);
            s.object_drag = Some(ObjectDragState::ResizeObject { object_id, kind, handle });
        },
        Some(ObjectDragState::MovePendingCrop { start, origin }) => {
            s.pending_crop = Some(moved_pending_crop(&origin, start, current, w, h));
            s.object_drag = Some(ObjectDragState::MovePendingCrop { start, origin });
        },
        Some(ObjectDragState::ResizePendingCrop { handle, origin }) => {
            if let Some(next_crop) = resized_crop_from_handle(&origin, handle, current, w, h) {
                s.pending_crop = Some(next_crop);
            }
            s.object_drag = Some(ObjectDragState::ResizePendingCrop { handle, origin });
        },
        None => {
            if let Some(stroke_id) = s.active_pen_stroke {
                let appended = s.tools.append_pen_point(stroke_id, current);
                if appended.is_ok() {
                    s.status = pen_point_status("pen stroke point (", current);
                }
            } else if let Some(preview) = s.drag_preview {
                s.drag_preview = Some(ToolDragPreview { current, ..preview });
            }
        },
    }
}

/// `prefix` followed by `x, y)`.
fn pen_point_status(prefix: &str, point: ToolPoint) -> (s: String)
    ensures
        s@ == prefix@ + spec_signed_decimal(point.x as int) + ", "@ + spec_signed_decimal(point.y as int)
            + ")"@,
{
    let mut v = chars_of(prefix);
    append_chars(&mut v, &signed_decimal_chars(point.x as i64));
    append_chars(&mut v, &chars_of(", "));
    append_chars(&mut v, &signed_decimal_chars(point.y as i64));
    append_chars(&mut v, &chars_of(")"));
    string_from_chars(&v)
}

/// What the caller still has to do when a drag ends.
#[derive(Debug, Clone, Copy, PartialEq, Eq, Structural)]
pub enum DrawEndOutcome {
    /// Nothing more.
    Done,
    /// Run recognition on this region of the image, `(x, y, width, height)`.
    RecognizeRegion { x: i32, y: i32, width: u32, height: u32 },
}

/// `b` is `a` with `point` added to the pen stroke `id` and the stroke finished, as
/// `append_pen_point` then `finish_pen_stroke` do; unchanged when `id` names no stroke.
pub open spec fn spec_pen_completed(a: EditorTools, b: EditorTools, id: u64, point: ToolPoint) -> bool {
    if !(spec_find(a.spec_objects(), id) matches Some(ToolObject::Pen(_))) {
        b == a
    } else {
        let i = spec_index_of(a.spec_objects(), id);
        &&& spec_unchanged_except(a.spec_objects(), b.spec_objects(), i)
        &&& a.spec_objects()[i] matches ToolObject::Pen(before)
        &&& b.spec_objects()[i] matches ToolObject::Pen(after)
        &&& after.points@ == before.points@.push(PenPoint { x: point.x, y: point.y })
        &&& after.finalized && after.id == before.id && after.options == before.options
        &&& b.spec_next_id() == a.spec_next_id()
        &&& b.spec_active_pen_stroke() == (if a.spec_active_pen_stroke() == Some(id) {
            None
        } else {
            a.spec_active_pen_stroke()
        })
        &&& b.spec_active_text_box() == a.spec_active_text_box()
        &&& b.spec_same_settings(&a)
    }
}

/// The object a drawing drag from `start` to `end` with `tool` places, or why it places none.
pub open spec fn spec_drawn_object(tools: EditorTools, tool: ToolKind, start: ToolPoint, end: ToolPoint) -> Result<
    ToolObject,
    ToolError,
> {
    let id = tools.spec_next_id();
    match tool {
        ToolKind::Blur => match spec_normalize_tool_box(start, end) {
            None => Err(ToolError::InvalidBlurRegion),
            Some((x, y, w, h)) => Ok(
                ToolObject::Blur(
                    BlurElement {
                        id,
                        region: BlurRegion { x, y, width: w, height: h },
                        anchor: ToolPoint { x, y },
                        options: tools.spec_blur_options(),
                    },
                ),
            ),
        },
        ToolKind::Arrow => if start == end {
            Err(ToolError::InvalidArrowGeometry)
        } else {
            Ok(ToolObject::Arrow(ArrowElement { id, start, end, options: tools.spec_arrow_options() }))
        },
        ToolKind::Rectangle => if start.x == end.x || start.y == end.y {
            Err(ToolError::InvalidRectangleGeometry)
        } else {
            Ok(
                ToolObject::Rectangle(
                    RectangleElement {
                        id,
                        x: spec_span(start, end).0 as i32,
                        y: spec_span(start, end).1 as i32,
                        width: spec_span(start, end).2 as u32,
                        height: spec_span(start, end).3 as u32,
                        options: tools.spec_rectangle_options(),
                    },
                ),
            )
        },
        _ => Err(ToolError::ToolNotSelected),
    }
}

/// The crop box a crop drag from `start` to `end` frames on the image, or why it frames
/// none. It is measured as a fresh tool set would place it, so it carries the first id.
pub open spec fn spec_framed_crop(
    tools: EditorTools,
    start: ToolPoint,
    end: ToolPoint,
    image_width: i32,
    image_height: i32,
) -> Result<CropElement, ToolError> {
    let preset = tools.spec_crop_options().preset;
    let b = spec_crop_box(
        start,
        end,
        spec_max(image_width as int, 1) as i32,
        spec_max(image_height as int, 1) as i32,
        preset,
    );
    if b.2 < CROP_MIN_SIZE || b.3 < CROP_MIN_SIZE {
        Err(ToolError::InvalidCropGeometry)
    } else {
        Ok(CropElement { id: 1, x: b.0 as i32, y: b.1 as i32, width: b.2 as u32, height: b.3 as u32, options: CropOptions { preset } })
    }
}

/// Ending a drag is defined: the boxes it measures have spans that fit in `i32`, and text
/// sizes are given for picking.
pub open spec fn spec_draw_end_defined(s: EditorCanvasSession, end: ToolPoint, sizes: Seq<(u32, u32)>) -> bool {
    (s.object_drag is None && s.active_pen_stroke is None && s.drag_preview is Some) ==> {
        let p = s.drag_preview->0;
        &&& (p.tool == ToolKind::Select || p.tool == ToolKind::Blur || p.tool == ToolKind::Ocr)
            ==> spec_drag_spans_fit(p.start, end)
        &&& p.tool == ToolKind::Select ==> sizes.len() == s.tools.spec_objects().len()
    }
}

/// Everything but the listed parts is as it was.
pub open spec fn spec_end_keeps(a: EditorCanvasSession, b: EditorCanvasSession) -> bool {
    &&& a.image_width == b.image_width
    &&& a.image_height == b.image_height
}

/// Ends a drag at `end`:
/// - a grab ends: a move or resize marks the editor changed (a resize also selects the
///   object), and the status reports it;
/// - a pen stroke gets its last point and is finished, then selected;
/// - a select drag selects the topmost object it touches;
/// - a crop drag frames a pending crop box;
/// - a recognition drag hands its region to the caller;
/// - a drawing drag places its object, which is then selected, or reports why not.
/// Placing or finishing an object drops what could be redone.
pub fn draw_gesture_end(
    s: &mut EditorCanvasSession,
    end: ToolPoint,
    text_sizes: &Vec<(u32, u32)>,
    ocr_in_progress: bool,
) -> (outcome: DrawEndOutcome)
    requires
        spec_draw_end_defined(*old(s), end, text_sizes@),
    ensures
        spec_end_keeps(*final(s), *old(s)),
        match old(s).object_drag {
            Some(drag) => {
                &&& outcome == DrawEndOutcome::Done
                &&& final(s).object_drag is None
                &&& final(s).tools == old(s).tools
                &&& final(s).history == old(s).history
                &&& final(s).pending_crop == old(s).pending_crop
                &&& final(s).drag_preview == old(s).drag_preview
                &&& final(s).active_pen_stroke == old(s).active_pen_stroke
                &&& match drag {
                    ObjectDragState::Move { object_ids, .. } => {
                        &&& final(s).has_unsaved_changes
                        &&& final(s).selected_object_ids == old(s).selected_object_ids
                        &&& final(s).status@ == "moved "@ + spec_decimal(object_ids@.len()) + " object(s)"@
                    },
                    ObjectDragState::ResizeObject { object_id, kind, .. } => {
                        &&& final(s).has_unsaved_changes
                        &&& final(s).selected_object_ids@ == seq![object_id]
                        &&& final(s).status@ == spec_resize_status(kind)
                    },
                    _ => {
                        &&& final(s).has_unsaved_changes == old(s).has_unsaved_changes
                        &&& final(s).selected_object_ids == old(s).selected_object_ids
                        &&& final(s).status@ == "crop frame updated"@
                    },
                }
            },
            None => match old(s).active_pen_stroke {
                Some(id) => {
                    &&& outcome == DrawEndOutcome::Done
                    &&& spec_pen_completed(old(s).tools, final(s).tools, id, end)
                    &&& final(s).active_pen_stroke is None
                    &&& final(s).object_drag is None
                    &&& final(s).pending_crop == old(s).pending_crop
                    &&& final(s).drag_preview == old(s).drag_preview
                    &&& if spec_find(old(s).tools.spec_objects(), id) matches Some(ToolObject::Pen(_)) {
                        &&& final(s).history.spec_undo() == old(s).history.spec_undo()
                        &&& final(s).history.spec_redo().len() == 0
                        &&& final(s).has_unsaved_changes
                        &&& final(s).selected_object_ids@ == seq![id]
                        &&& final(s).status@ == "pen stroke finalized at ("@ + spec_signed_decimal(end.x as int)
                            + ", "@ + spec_signed_decimal(end.y as int) + ")"@
                    } else {
                        &&& final(s).history == old(s).history
                        &&& final(s).has_unsaved_changes == old(s).has_unsaved_changes
                        &&& final(s).selected_object_ids == old(s).selected_object_ids
                        &&& final(s).status == old(s).status
                    }
                },
                None => match old(s).drag_preview {
                    None => outcome == DrawEndOutcome::Done && *final(s) == *old(s),
                    Some(p) => {
                        &&& final(s).drag_preview is None
                        &&& final(s).object_drag is None
                        &&& final(s).active_pen_stroke is None
                        &&& if p.tool == ToolKind::Select {
                            let ids = spec_drag_box_ids(old(s).tools.spec_objects(), text_sizes@, p.start, end);
                            &&& outcome == DrawEndOutcome::Done
                            &&& final(s).tools == old(s).tools
                            &&& final(s).history == old(s).history
                            &&& final(s).pending_crop == old(s).pending_crop
                            &&& final(s).has_unsaved_changes == old(s).has_unsaved_changes
                            &&& if ids.len() > 0 {
                                &&& final(s).selected_object_ids@ == seq![ids[0]]
                                &&& final(s).status@ == "selected object #"@ + spec_decimal(ids[0] as nat)
                            } else {
                                &&& final(s).selected_object_ids@.len() == 0
                                &&& final(s).status@ == "object selection cleared"@
                            }
                        } else if p.tool == ToolKind::Crop {
                            &&& outcome == DrawEndOutcome::Done
                            &&& final(s).tools == old(s).tools
                            &&& final(s).history == old(s).history
                            &&& final(s).selected_object_ids == old(s).selected_object_ids
                            &&& match spec_framed_crop(old(s).tools, p.start, end, old(s).image_width, old(s).image_height) {
                                Ok(c) => {
                                    &&& final(s).pending_crop == Some(c)
                                    &&& final(s).has_unsaved_changes
                                    &&& final(s).status@ == "crop frame ready "@ + spec_decimal(c.width as nat) + "x"@
                                        + spec_decimal(c.height as nat) + " at ("@ + spec_signed_decimal(c.x as int)
                                        + ", "@ + spec_signed_decimal(c.y as int) + ")"@
                                },
                                Err(e) => {
                                    &&& final(s).pending_crop == old(s).pending_crop
                                    &&& final(s).has_unsaved_changes == old(s).has_unsaved_changes
                                    &&& final(s).status@ == "crop drag ignored: "@ + e.spec_name()
                                },
                            }
                        } else if p.tool == ToolKind::Ocr {
                            &&& final(s).tools == old(s).tools
                            &&& final(s).history == old(s).history
                            &&& final(s).selected_object_ids == old(s).selected_object_ids
                            &&& final(s).pending_crop == old(s).pending_crop
                            &&& final(s).has_unsaved_changes == old(s).has_unsaved_changes
                            &&& if ocr_in_progress {
                                outcome == DrawEndOutcome::Done && final(s).status@ == "OCR already in progress"@
                            } else {
                                match spec_normalize_tool_box(p.start, end) {
                                    None => outcome == DrawEndOutcome::Done && final(s).status@
                                        == "OCR drag too small"@,
                                    Some((x, y, w, h)) => outcome == (DrawEndOutcome::RecognizeRegion {
                                        x,
                                        y,
                                        width: w,
                                        height: h,
                                    }) && final(s).status == old(s).status,
                                }
                            }
                        } else {
                            &&& outcome == DrawEndOutcome::Done
                            &&& final(s).pending_crop == old(s).pending_crop
                            &&& match spec_drawn_object(old(s).tools, p.tool, p.start, end) {
                                Ok(o) => {
                                    &&& final(s).tools.spec_objects() == old(s).tools.spec_objects().push(o)
                                    &&& final(s).tools.spec_next_id() == spec_next(old(s).tools.spec_next_id())
                                    &&& final(s).tools.spec_active_pen_stroke() == old(s).tools.spec_active_pen_stroke()
                                    &&& final(s).tools.spec_active_text_box() == old(s).tools.spec_active_text_box()
                                    &&& final(s).tools.spec_same_settings(&old(s).tools)
                                    &&& final(s).history.spec_undo() == old(s).history.spec_undo()
                                    &&& final(s).history.spec_redo().len() == 0
                                    &&& final(s).has_unsaved_changes
                                    &&& final(s).selected_object_ids@ == seq![o.spec_id()]
                                    &&& final(s).status@ == spec_tool_kind_label(p.tool) + " object #"@
                                        + spec_decimal(o.spec_id() as nat) + " created"@
                                },
                                Err(e) => {
                                    &&& final(s).tools == old(s).tools
                                    &&& final(s).history == old(s).history
                                    &&& final(s).has_unsaved_changes == old(s).has_unsaved_changes
                                    &&& final(s).selected_object_ids == old(s).selected_object_ids
                                    &&& final(s).status@ == spec_tool_kind_label(p.tool) + " drag ignored: "@ + e.spec_name()
                                },
                            }
                        }
                    },
                },
            },
        },
{
    match s.object_drag.take() {
        Some(ObjectDragState::Move { object_ids, .. }) => {
            s.has_unsaved_changes = true;
            s.status = count_status("moved ", object_ids.len() as u64, " object(s)");
            return DrawEndOutcome::Done;
        },
        Some(ObjectDragState::ResizeObject { object_id, kind, .. }) => {
            s.has_unsaved_changes = true;
            select_only(&mut s.selected_object_ids, object_id);
            s.status = copy_text(resize_status_label(kind));
            return DrawEndOutcome::Done;
        },
        Some(_) => {
            s.status = copy_text("crop frame updated");
            return DrawEndOutcome::Done;
        },
        None => {},
    }
    if let Some(stroke_id) = s.active_pen_stroke {
        let finished = complete_pen_stroke(&mut s.tools, stroke_id, end);
        if finished {
            s.history.clear_redo();
            s.has_unsaved_changes = true;
            select_only(&mut s.selected_object_ids, stroke_id);
            s.status = pen_point_status("pen stroke finalized at (", end);
        }
        s.active_pen_stroke = None;
        return DrawEndOutcome::Done;
    }
    let preview = match s.drag_preview.take() {
        Some(p) => p,
        None => return DrawEndOutcome::Done,
    };
    if preview.tool == ToolKind::Select {
        let selected = top_object_id_in_drag_box(&s.tools, preview.start, end, text_sizes);
        match selected {
            Some(id) => {
                select_only(&mut s.selected_object_ids, id);
                s.status = numbered("selected object #", id);
            },
            None => {
                s.selected_object_ids.clear();
                s.status = copy_text("object selection cleared");
            },
        }
        return DrawEndOutcome::Done;
    }
    if preview.tool == ToolKind::Crop {
        let mut probe = EditorTools::new();
        probe.set_crop_preset(s.tools.crop_options().preset);
        let width = if s.image_width >= 1 { s.image_width } else { 1 };
        let height = if s.image_height >= 1 { s.image_height } else { 1 };
        match probe.add_crop_in_bounds(preview.start, end, width, height) {
            Ok(crop_id) => {
                proof {
                    assert(probe.spec_crop_options() == CropOptions { preset: s.tools.spec_crop_options().preset });
                    assert(spec_index_from(probe.spec_objects(), crop_id, 0) == 0);
                }
                if let Some(crop) = probe.get_crop(crop_id) {
                    let crop = *crop;
                    s.pending_crop = Some(crop);
                    s.has_unsaved_changes = true;
                    s.status = crop_ready_status(&crop);
                }
            },
            Err(err) => {
                s.status = joined("crop drag ignored: ", err.name());
            },
        }
        return DrawEndOutcome::Done;
    }
    if preview.tool == ToolKind::Ocr {
        if ocr_in_progress {
            s.status = copy_text("OCR already in progress");
            return DrawEndOutcome::Done;
        }
        return match normalize_tool_box(preview.start, end) {
            Some((x, y, width, height)) => DrawEndOutcome::RecognizeRegion { x, y, width, height },
            None => {
                s.status = copy_text("OCR drag too small");
                DrawEndOutcome::Done
            },
        };
    }
    let result = place_drawn_object(&mut s.tools, preview.tool, preview.start, end);
    match result {
        Ok(object_id) => {
            s.history.clear_redo();
            s.has_unsaved_changes = true;
            select_only(&mut s.selected_object_ids, object_id);
            let mut v = chars_of(tool_kind_label(preview.tool));
            append_chars(&mut v, &chars_of(" object #"));
            append_chars(&mut v, &decimal_chars(object_id as u128));
            append_chars(&mut v, &chars_of(" created"));
            s.status = string_from_chars(&v);
        },
        Err(err) => {
            let mut v = chars_of(tool_kind_label(preview.tool));
            append_chars(&mut v, &chars_of(" drag ignored: "));
            append_chars(&mut v, &chars_of(err.name()));
            s.status = string_from_chars(&v);
        },
    }
    DrawEndOutcome::Done
}

/// Places the object a drawing drag from `start` to `end` with `tool` draws.
fn place_drawn_object(tools: &mut EditorTools, tool: ToolKind, start: ToolPoint, end: ToolPoint) -> (result: Result<
    u64,
    ToolError,
>)
    requires
        tool == ToolKind::Blur ==> spec_drag_spans_fit(start, end),
    ensures
        match spec_drawn_object(*old(tools), tool, start, end) {
            Ok(o) => {
                &&& result == Ok::<u64, ToolError>(o.spec_id())
                &&& final(tools).spec_objects() == old(tools).spec_objects().push(o)
                &&& final(tools).spec_next_id() == spec_next(old(tools).spec_next_id())
                &&& final(tools).spec_active_pen_stroke() == old(tools).spec_active_pen_stroke()
                &&& final(tools).spec_active_text_box() == old(tools).spec_active_text_box()
                &&& final(tools).spec_same_settings(&*old(tools))
            },
            Err(e) => result == Err::<u64, ToolError>(e) && *final(tools) == *old(tools),
        },
{
    match tool {
        ToolKind::Blur => match normalize_tool_box(start, end) {
            Some((x, y, width, height)) => {
                assert(width > 0 && height > 0);
                tools.add_blur(BlurRegion { x, y, width, height })
            },
            None => Err(ToolError::InvalidBlurRegion),
        },
        ToolKind::Arrow => tools.add_arrow(start, end),
        ToolKind::Rectangle => tools.add_rectangle(start, end),
        _ => Err(ToolError::ToolNotSelected),
    }
}

/// Makes `id` the only selected object.
fn select_only(selected: &mut Vec<u64>, id: u64)
    ensures
        final(selected)@ == seq![id],
{
    selected.clear();
    selected.push(id);
    assert(selected@ =~= seq![id]);
}

/// `prefix` followed by the number.
fn numbered(prefix: &str, n: u64) -> (s: String)
    ensures
        s@ == prefix@ + spec_decimal(n as nat),
{
    let mut v = chars_of(prefix);
    append_chars(&mut v, &decimal_chars(n as u128));
    string_from_chars(&v)
}

/// `prefix`, the number, then `suffix`.
fn count_status(prefix: &str, n: u64, suffix: &str) -> (s: String)
    ensures
        s@ == prefix@ + spec_decimal(n as nat) + suffix@,
{
    let mut v = chars_of(prefix);
    append_chars(&mut v, &decimal_chars(n as u128));
    append_chars(&mut v, &chars_of(suffix));
    string_from_chars(&v)
}

fn crop_ready_status(crop: &CropElement) -> (s: String)
    ensures
        s@ == "crop frame ready "@ + spec_decimal(crop.width as nat) + "x"@ + spec_decimal(crop.height as nat)
            + " at ("@ + spec_signed_decimal(crop.x as int) + ", "@ + spec_signed_decimal(crop.y as int) + ")"@,
{
    let mut v = chars_of("crop frame ready ");
    append_chars(&mut v, &decimal_chars(crop.width as u128));
    append_chars(&mut v, &chars_of("x"));
    append_chars(&mut v, &decimal_chars(crop.height as u128));
    append_chars(&mut v, &chars_of(" at ("));
    append_chars(&mut v, &signed_decimal_chars(crop.x as i64));
    append_chars(&mut v, &chars_of(", "));
    append_chars(&mut v, &signed_decimal_chars(crop.y as i64));
    append_chars(&mut v, &chars_of(")"));
    string_from_chars(&v)
}

/// Adds `point` to the pen stroke `id` and finishes it; reports whether it was a stroke.
fn complete_pen_stroke(tools: &mut EditorTools, id: u64, point: ToolPoint) -> (finished: bool)
    ensures
        spec_pen_completed(*old(tools), *final(tools), id, point),
        finished == spec_find(old(tools).spec_objects(), id) matches Some(ToolObject::Pen(_)),
{
    let ghost before = *tools;
    let appended = tools.append_pen_point(id, point);
    let ghost mid = *tools;
    proof {
        lemma_index_of(before.spec_objects(), id);
        if appended is Ok {
            let i = spec_index_of(before.spec_objects(), id);
            assert forall|j: int| 0 <= j < before.spec_objects().len() implies #[trigger] before.spec_objects()[j].spec_id()
                == mid.spec_objects()[j].spec_id() by {
                if j != i {
                    assert(mid.spec_objects()[j] == before.spec_objects()[j]);
                }
            }
            lemma_index_from_same_ids(before.spec_objects(), mid.spec_objects(), id, 0);
        }
    }
    let finished = tools.finish_pen_stroke(id);
    proof {
        if appended is Ok {
            let i = spec_index_of(before.spec_objects(), id);
            assert(spec_index_of(mid.spec_objects(), id) == i);
            assert(finished is Ok);
            assert forall|j: int| 0 <= j < before.spec_objects().len() && j != i implies #[trigger] tools.spec_objects()[j]
                == before.spec_objects()[j] by {
                assert(mid.spec_objects()[j] == before.spec_objects()[j]);
            }
        }
    }
    finished.is_ok()
}

/// Takes one undo or redo step (see `spec_history_step`). When there was a step, the
/// selection keeps only ids that still exist, the pending crop box is dropped, the editor
/// is marked changed and the status says the step was applied; otherwise the status says
/// there was nothing to step to.
pub fn apply_history_action(s: &mut EditorCanvasSession, action: EditorHistoryAction) -> (applied: bool)
    ensures
        ({
            let step = spec_history_step(
                old(s).history.spec_undo(),
                old(s).history.spec_redo(),
                old(s).tools.spec_objects(),
                action,
            );
            &&& applied == step.3
            &&& final(s).history.spec_undo() == step.0
            &&& final(s).history.spec_redo() == step.1
            &&& final(s).tools.spec_objects() == step.2
            &&& if applied {
                &&& spec_replaced(final(s).tools, old(s).tools, step.2)
                &&& final(s).selected_object_ids@ == spec_existing_ids(
                    final(s).tools.spec_objects(),
                    old(s).selected_object_ids@,
                    old(s).selected_object_ids@.len() as int,
                )
                &&& final(s).pending_crop is None
                &&& final(s).has_unsaved_changes
                &&& final(s).status@ == spec_applied_message(action)@
            } else {
                &&& final(s).tools == old(s).tools
                &&& final(s).selected_object_ids == old(s).selected_object_ids
                &&& final(s).pending_crop == old(s).pending_crop
                &&& final(s).has_unsaved_changes == old(s).has_unsaved_changes
                &&& final(s).status@ == spec_empty_message(action)@
            }
        }),
        final(s).object_drag == old(s).object_drag,
        final(s).drag_preview == old(s).drag_preview,
        final(s).active_pen_stroke == old(s).active_pen_stroke,
        spec_end_keeps(*final(s), *old(s)),
{
    let applied = s.history.apply(action, &mut s.tools);
    if applied {
        ensure_selected_object_exists(&s.tools, &mut s.selected_object_ids);
        s.pending_crop = None;
        s.has_unsaved_changes = true;
        s.status = copy_text(action.applied_message());
    } else {
        s.status = copy_text(action.empty_message());
    }
    applied
}

/// Undoing right after an edit that saved the objects for undo gives back the objects as
/// they were before the edit, leaves the history as it was before the edit, and makes the
/// edited objects the one step that can be redone.
pub proof fn lemma_undo_after_saved_edit(
    after: EditorHistory,
    before: EditorHistory,
    snapshot: Seq<ToolObject>,
    edited: Seq<ToolObject>,
)
    requires
        spec_saved_for_undo(after, before, snapshot),
    ensures
        spec_history_step(after.spec_undo(), after.spec_redo(), edited, EditorHistoryAction::Undo) == (
            before.spec_undo(),
            seq![edited],
            snapshot,
            true,
        ),
{
    assert(after.spec_undo().drop_last() =~= before.spec_undo());
    assert(Seq::<Seq<ToolObject>>::empty().push(edited) =~= seq![edited]);
}

/// Dragging the pending crop box keeps it on the image: when the box fits on the image, the
/// moved box starts on the image and ends within it.
pub proof fn lemma_moved_pending_crop_stays_on_image(
    origin: CropElement,
    start: ToolPoint,
    current: ToolPoint,
    image_width: i32,
    image_height: i32,
)
    requires
        origin.width <= image_width,
        origin.height <= image_height,
    ensures
        ({
            let c = spec_moved_pending_crop(origin, start, current, image_width, image_height);
            &&& 0 <= c.x && c.x + c.width <= image_width
            &&& 0 <= c.y && c.y + c.height <= image_height
            &&& c.width == origin.width && c.height == origin.height
        }),
{
}

} // verus!
