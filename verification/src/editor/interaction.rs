//! Pointer interaction on the canvas: clamping points to the image, boxes drawn by a drag,
//! corner handles, and resizing a box by dragging one of its corners.

use vstd::prelude::*;

use crate::arith::{clamp_i32, sat_add_i32, sat_sub_i32, spec_clamp, spec_max, spec_min, spec_sat_i32};
use crate::geometry::{ImageBounds, ToolBounds, ToolPoint};
use super::tools::crop::spec_resolve_ratio;
use super::tools::selection::spec_axis_max;
use super::tools::selection::spec_clamp_bounds;
use super::tools::{
    adjust_ratio_to_fit, spec_adjust_ratio_to_fit, spec_find, spec_index_of, lemma_index_of, lemma_first_is_first_of_its_kind, BlurElement,
    BlurRegion, CropElement, EditorTools, RectangleElement, ToolKind, ToolObject, CROP_MIN_SIZE,
};

verus! {

/// A corner of a box that can be dragged to resize it.
#[derive(Debug, Clone, Copy, PartialEq, Eq, Structural)]
pub enum RectangleHandle {
    TopLeft,
    TopRight,
    BottomLeft,
    BottomRight,
}

/// The kinds of placed objects that can be resized by their corners.
#[derive(Debug, Clone, Copy, PartialEq, Eq, Structural)]
pub enum ResizableObjectKind {
    Rectangle,
    Blur,
    Crop,
}

/// Distance, in image pixels, within which a pointer grabs a corner handle.
pub const HANDLE_GRAB_RADIUS: i32 = 8;
/// Smallest side a box may be resized to.
pub const RESIZE_MIN_SIDE: u32 = 4;

/// The last valid coordinate on an axis of the given length.
fn axis_max(length: i32) -> (m: i32)
    ensures
        m == spec_axis_max(length),
{
    let m = sat_sub_i32(length, 1);
    if m < 0 { 0 } else { m }
}

/// `point` moved onto the image: each coordinate clamped to `[0, length - 1]`.
pub fn clamp_tool_point(point: ToolPoint, image_width: i32, image_height: i32) -> (p: ToolPoint)
    ensures
        p.x == spec_clamp(point.x as int, 0, spec_axis_max(image_width) as int),
        p.y == spec_clamp(point.y as int, 0, spec_axis_max(image_height) as int),
{
    let max_x = axis_max(image_width);
    let max_y = axis_max(image_height);
    ToolPoint { x: clamp_i32(point.x, 0, max_x), y: clamp_i32(point.y, 0, max_y) }
}

/// The box spanned by a drag, as `(left, top, width, height)`.
pub open spec fn spec_normalize_tool_box(start: ToolPoint, end: ToolPoint) -> Option<(i32, i32, u32, u32)> {
    let left = spec_min(start.x as int, end.x as int);
    let right = spec_max(start.x as int, end.x as int);
    let top = spec_min(start.y as int, end.y as int);
    let bottom = spec_max(start.y as int, end.y as int);
    if right == left || bottom == top {
        None
    } else {
        Some((left as i32, top as i32, (right - left) as u32, (bottom - top) as u32))
    }
}

/// The spans of a drag fit in `i32`.
pub open spec fn spec_drag_spans_fit(start: ToolPoint, end: ToolPoint) -> bool {
    spec_max(start.x as int, end.x as int) - spec_min(start.x as int, end.x as int) <= i32::MAX
        && spec_max(start.y as int, end.y as int) - spec_min(start.y as int, end.y as int)
        <= i32::MAX
}

/// The box spanned by a drag from `start` to `end`; none when it has no area.
pub fn normalize_tool_box(start: ToolPoint, end: ToolPoint) -> (r: Option<(i32, i32, u32, u32)>)
    requires
        spec_drag_spans_fit(start, end),
    ensures
        r == spec_normalize_tool_box(start, end),
{
    let left = if start.x <= end.x { start.x } else { end.x };
    let right = if start.x >= end.x { start.x } else { end.x };
    let top = if start.y <= end.y { start.y } else { end.y };
    let bottom = if start.y >= end.y { start.y } else { end.y };
    let width = (right - left) as u32;
    let height = (bottom - top) as u32;
    if width == 0 || height == 0 {
        return None;
    }
    Some((left, top, width, height))
}

/// A `u32` length read as an `i32`, saturating.
pub open spec fn spec_len_i32(length: u32) -> int {
    spec_min(length as int, i32::MAX as int)
}

fn len_i32(length: u32) -> (r: i32)
    ensures
        r == spec_len_i32(length),
{
    if length > i32::MAX as u32 { i32::MAX } else { length as i32 }
}

/// Whether `point` lies in the box `(x, y, width, height)` grown by `padding` on each side,
/// edges included, with saturating arithmetic.
pub open spec fn spec_point_in_bounds(
    point: ToolPoint,
    x: i32,
    y: i32,
    width: u32,
    height: u32,
    padding: i32,
) -> bool {
    let left = spec_sat_i32(x - padding);
    let top = spec_sat_i32(y - padding);
    let right = spec_sat_i32(spec_sat_i32(x + spec_len_i32(width)) + padding);
    let bottom = spec_sat_i32(spec_sat_i32(y + spec_len_i32(height)) + padding);
    left <= point.x <= right && top <= point.y <= bottom
}

pub fn point_in_bounds(point: ToolPoint, x: i32, y: i32, width: u32, height: u32, padding: i32) -> (b: bool)
    ensures
        b == spec_point_in_bounds(point, x, y, width, height, padding),
{
    let w = len_i32(width);
    let h = len_i32(height);
    let left = sat_sub_i32(x, padding);
    let top = sat_sub_i32(y, padding);
    let right = sat_add_i32(sat_add_i32(x, w), padding);
    let bottom = sat_add_i32(sat_add_i32(y, h), padding);
    point.x >= left && point.x <= right && point.y >= top && point.y <= bottom
}

/// Whether two boxes overlap or touch, with saturating right and bottom edges.
pub open spec fn spec_bounds_intersect(a: ToolBounds, b: ToolBounds) -> bool {
    let a_right = spec_sat_i32(a.x + spec_len_i32(a.width));
    let a_bottom = spec_sat_i32(a.y + spec_len_i32(a.height));
    let b_right = spec_sat_i32(b.x + spec_len_i32(b.width));
    let b_bottom = spec_sat_i32(b.y + spec_len_i32(b.height));
    a.x <= b_right && b.x <= a_right && a.y <= b_bottom && b.y <= a_bottom
}

pub fn bounds_intersect(a: ToolBounds, b: ToolBounds) -> (r: bool)
    ensures
        r == spec_bounds_intersect(a, b),
{
    let a_right = sat_add_i32(a.x, len_i32(a.width));
    let a_bottom = sat_add_i32(a.y, len_i32(a.height));
    let b_right = sat_add_i32(b.x, len_i32(b.width));
    let b_bottom = sat_add_i32(b.y, len_i32(b.height));
    a.x <= b_right && b.x <= a_right && a.y <= b_bottom && b.y <= a_bottom
}

/// The position of one corner of the box `(x, y, width, height)`.
pub open spec fn spec_corner(x: i32, y: i32, width: u32, height: u32, handle: RectangleHandle) -> ToolPoint {
    let right = spec_sat_i32(x + spec_len_i32(width)) as i32;
    let bottom = spec_sat_i32(y + spec_len_i32(height)) as i32;
    match handle {
        RectangleHandle::TopLeft => ToolPoint { x, y },
        RectangleHandle::TopRight => ToolPoint { x: right, y },
        RectangleHandle::BottomLeft => ToolPoint { x, y: bottom },
        RectangleHandle::BottomRight => ToolPoint { x: right, y: bottom },
    }
}

/// The four corners of a box, top-left, top-right, bottom-left, bottom-right.
pub fn corner_points_for_bounds(x: i32, y: i32, width: u32, height: u32) -> (corners: Vec<(RectangleHandle, ToolPoint)>)
    ensures
        corners@ == seq![
            (RectangleHandle::TopLeft, spec_corner(x, y, width, height, RectangleHandle::TopLeft)),
            (RectangleHandle::TopRight, spec_corner(x, y, width, height, RectangleHandle::TopRight)),
            (RectangleHandle::BottomLeft, spec_corner(x, y, width, height, RectangleHandle::BottomLeft)),
            (RectangleHandle::BottomRight, spec_corner(x, y, width, height, RectangleHandle::BottomRight)),
        ],
{
    let right = sat_add_i32(x, len_i32(width));
    let bottom = sat_add_i32(y, len_i32(height));
    let corners = vec![
        (RectangleHandle::TopLeft, ToolPoint { x, y }),
        (RectangleHandle::TopRight, ToolPoint { x: right, y }),
        (RectangleHandle::BottomLeft, ToolPoint { x, y: bottom }),
        (RectangleHandle::BottomRight, ToolPoint { x: right, y: bottom }),
    ];
    assert(corners@ =~= seq![
        (RectangleHandle::TopLeft, spec_corner(x, y, width, height, RectangleHandle::TopLeft)),
        (RectangleHandle::TopRight, spec_corner(x, y, width, height, RectangleHandle::TopRight)),
        (RectangleHandle::BottomLeft, spec_corner(x, y, width, height, RectangleHandle::BottomLeft)),
        (RectangleHandle::BottomRight, spec_corner(x, y, width, height, RectangleHandle::BottomRight)),
    ]);
    corners
}

/// Whether `point` is within the grab radius of `corner` on both axes.
pub open spec fn spec_near(point: ToolPoint, corner: ToolPoint) -> bool {
    -HANDLE_GRAB_RADIUS <= point.x - corner.x <= HANDLE_GRAB_RADIUS
        && -HANDLE_GRAB_RADIUS <= point.y - corner.y <= HANDLE_GRAB_RADIUS
}

/// The differences between `point` and each corner of the box fit in `i32` and have an
/// absolute value.
pub open spec fn spec_handle_test_defined(x: i32, y: i32, width: u32, height: u32, point: ToolPoint) -> bool {
    let right = spec_sat_i32(x + spec_len_i32(width));
    let bottom = spec_sat_i32(y + spec_len_i32(height));
    i32::MIN < point.x - x <= i32::MAX && i32::MIN < point.x - right <= i32::MAX
        && i32::MIN < point.y - y <= i32::MAX && i32::MIN < point.y - bottom <= i32::MAX
}

/// The first corner, in the order top-left, top-right, bottom-left, bottom-right, that
/// `point` grabs.
pub open spec fn spec_handle_at_point(x: i32, y: i32, width: u32, height: u32, point: ToolPoint) -> Option<RectangleHandle> {
    if spec_near(point, spec_corner(x, y, width, height, RectangleHandle::TopLeft)) {
        Some(RectangleHandle::TopLeft)
    } else if spec_near(point, spec_corner(x, y, width, height, RectangleHandle::TopRight)) {
        Some(RectangleHandle::TopRight)
    } else if spec_near(point, spec_corner(x, y, width, height, RectangleHandle::BottomLeft)) {
        Some(RectangleHandle::BottomLeft)
    } else if spec_near(point, spec_corner(x, y, width, height, RectangleHandle::BottomRight)) {
        Some(RectangleHandle::BottomRight)
    } else {
        None
    }
}

/// The corner handle of the box `(x, y, width, height)` under `point`, if any.
pub fn handle_at_point_for_bounds(x: i32, y: i32, width: u32, height: u32, point: ToolPoint) -> (r: Option<RectangleHandle>)
    requires
        spec_handle_test_defined(x, y, width, height, point),
    ensures
        r == spec_handle_at_point(x, y, width, height, point),
{
    let corners = corner_points_for_bounds(x, y, width, height);
    let mut i: usize = 0;
    while i < corners.len()
        invariant
            0 <= i <= 4,
            corners@.len() == 4,
            spec_handle_test_defined(x, y, width, height, point),
            corners@ == seq![
                (RectangleHandle::TopLeft, spec_corner(x, y, width, height, RectangleHandle::TopLeft)),
                (RectangleHandle::TopRight, spec_corner(x, y, width, height, RectangleHandle::TopRight)),
                (RectangleHandle::BottomLeft, spec_corner(x, y, width, height, RectangleHandle::BottomLeft)),
                (RectangleHandle::BottomRight, spec_corner(x, y, width, height, RectangleHandle::BottomRight)),
            ],
            forall|k: int| 0 <= k < i ==> !spec_near(point, #[trigger] corners@[k].1),
        decreases 4 - i,
    {
        let (handle, corner) = corners[i];
        let dx = point.x - corner.x;
        let dy = point.y - corner.y;
        let adx = if dx < 0 { -dx } else { dx };
        let ady = if dy < 0 { -dy } else { dy };
        if adx <= HANDLE_GRAB_RADIUS && ady <= HANDLE_GRAB_RADIUS {
            proof {
                if i >= 1 {
                    assert(!spec_near(point, corners@[0].1));
                }
                if i >= 2 {
                    assert(!spec_near(point, corners@[1].1));
                }
                if i >= 3 {
                    assert(!spec_near(point, corners@[2].1));
                }
            }
            return Some(handle);
        }
        i = i + 1;
    }
    assert(!spec_near(point, corners@[0].1));
    assert(!spec_near(point, corners@[1].1));
    assert(!spec_near(point, corners@[2].1));
    assert(!spec_near(point, corners@[3].1));
    None
}

/// The corner opposite `handle`, which stays put while `handle` is dragged; none when a
/// side does not fit in `i32`.
pub open spec fn spec_opposite_corner(bounds: ToolBounds, handle: RectangleHandle) -> Option<(i32, i32)> {
    if bounds.width > i32::MAX as u32 || bounds.height > i32::MAX as u32 {
        None
    } else {
        let right = spec_sat_i32(bounds.x + bounds.width) as i32;
        let bottom = spec_sat_i32(bounds.y + bounds.height) as i32;
        Some(
            match handle {
                RectangleHandle::TopLeft => (right, bottom),
                RectangleHandle::TopRight => (bounds.x, bottom),
                RectangleHandle::BottomLeft => (right, bounds.y),
                RectangleHandle::BottomRight => (bounds.x, bounds.y),
            },
        )
    }
}

pub fn opposite_corner(bounds: ToolBounds, handle: RectangleHandle) -> (r: Option<(i32, i32)>)
    ensures
        r == spec_opposite_corner(bounds, handle),
{
    if bounds.width > i32::MAX as u32 || bounds.height > i32::MAX as u32 {
        return None;
    }
    let width = bounds.width as i32;
    let height = bounds.height as i32;
    let point = match handle {
        RectangleHandle::TopLeft => (sat_add_i32(bounds.x, width), sat_add_i32(bounds.y, height)),
        RectangleHandle::TopRight => (bounds.x, sat_add_i32(bounds.y, height)),
        RectangleHandle::BottomLeft => (sat_add_i32(bounds.x, width), bounds.y),
        RectangleHandle::BottomRight => (bounds.x, bounds.y),
    };
    Some(point)
}

/// `bounds` with the corner `handle` dragged to `point`: the box spanned by `point` and
/// the opposite corner, cut to the image; none when that box is emptied by the cut or has
/// a side under the minimum.
pub open spec fn spec_resized_bounds(
    bounds: ToolBounds,
    handle: RectangleHandle,
    point: ToolPoint,
    image: ImageBounds,
) -> Option<ToolBounds> {
    match spec_opposite_corner(bounds, handle) {
        None => None,
        Some((anchor_x, anchor_y)) => {
            let left = spec_clamp(spec_min(point.x as int, anchor_x as int), 0, spec_axis_max(image.width) as int);
            let top = spec_clamp(spec_min(point.y as int, anchor_y as int), 0, spec_axis_max(image.height) as int);
            let right = spec_clamp(spec_max(point.x as int, anchor_x as int), 1, spec_max(image.width as int, 1));
            let bottom = spec_clamp(spec_max(point.y as int, anchor_y as int), 1, spec_max(image.height as int, 1));
            if right <= left || bottom <= top {
                None
            } else if right - left < RESIZE_MIN_SIDE || bottom - top < RESIZE_MIN_SIDE {
                None
            } else {
                Some(ToolBounds { x: left as i32, y: top as i32, width: (right - left) as u32, height: (bottom - top) as u32 })
            }
        },
    }
}

pub fn resized_bounds_from_handle(
    bounds: ToolBounds,
    handle: RectangleHandle,
    point: ToolPoint,
    image_bounds: ImageBounds,
) -> (r: Option<ToolBounds>)
    ensures
        r == spec_resized_bounds(bounds, handle, point, image_bounds),
        r matches Some(b) ==> {
            &&& 0 <= b.x && b.x + b.width <= spec_max(image_bounds.width as int, 1)
            &&& 0 <= b.y && b.y + b.height <= spec_max(image_bounds.height as int, 1)
            &&& b.width >= RESIZE_MIN_SIDE && b.height >= RESIZE_MIN_SIDE
        },
{
    let (anchor_x, anchor_y) = match opposite_corner(bounds, handle) {
        Some(corner) => corner,
        None => return None,
    };
    let low_x = if point.x <= anchor_x { point.x } else { anchor_x };
    let low_y = if point.y <= anchor_y { point.y } else { anchor_y };
    let high_x = if point.x >= anchor_x { point.x } else { anchor_x };
    let high_y = if point.y >= anchor_y { point.y } else { anchor_y };
    let left = clamp_i32(low_x, 0, axis_max(image_bounds.width));
    let top = clamp_i32(low_y, 0, axis_max(image_bounds.height));
    let right = clamp_i32(high_x, 1, if image_bounds.width >= 1 { image_bounds.width } else { 1 });
    let bottom = clamp_i32(high_y, 1, if image_bounds.height >= 1 { image_bounds.height } else { 1 });
    if right <= left || bottom <= top {
        return None;
    }
    let next_width = (right - left) as u32;
    let next_height = (bottom - top) as u32;
    if next_width < RESIZE_MIN_SIDE || next_height < RESIZE_MIN_SIDE {
        return None;
    }
    Some(ToolBounds { x: left, y: top, width: next_width, height: next_height })
}

/// `value` raised to at least one.
pub open spec fn spec_at_least_one(value: i32) -> int {
    spec_max(value as int, 1)
}

/// The crop's ratio on an image of the given size (each side taken as at least one).
pub open spec fn spec_crop_ratio(crop: CropElement, image_width: i32, image_height: i32) -> Option<(u32, u32)> {
    spec_resolve_ratio(
        crop.options.preset,
        spec_at_least_one(image_width) as u32,
        spec_at_least_one(image_height) as u32,
    )
}

/// The signed distances from the crop's fixed corner to the dragged point, once the point
/// is clamped onto the image, fit in `i32` and have an absolute value.
pub open spec fn spec_crop_resize_defined(
    crop: CropElement,
    handle: RectangleHandle,
    point: ToolPoint,
    image_width: i32,
    image_height: i32,
) -> bool {
    let bounds = ToolBounds { x: crop.x, y: crop.y, width: crop.width, height: crop.height };
    match spec_opposite_corner(bounds, handle) {
        None => true,
        Some((anchor_x, anchor_y)) => {
            let bx = spec_clamp(point.x as int, 0, spec_at_least_one(image_width));
            let by = spec_clamp(point.y as int, 0, spec_at_least_one(image_height));
            i32::MIN < bx - anchor_x <= i32::MAX && i32::MIN < by - anchor_y <= i32::MAX
        },
    }
}

/// `|value|` of an integer.
pub open spec fn spec_abs(value: int) -> int {
    if value < 0 { -value } else { value }
}

/// The crop box with the corner `handle` dragged to `point`: its sides are the distances
/// from the opposite corner to the point clamped onto the image, fitted to the crop's
/// ratio where it has one, and it grows away from the opposite corner; none when a side
/// does not fit in `i32` or is under the crop minimum.
pub open spec fn spec_resized_crop(
    crop: CropElement,
    handle: RectangleHandle,
    point: ToolPoint,
    image_width: i32,
    image_height: i32,
) -> Option<CropElement> {
    let bounds = ToolBounds { x: crop.x, y: crop.y, width: crop.width, height: crop.height };
    match spec_opposite_corner(bounds, handle) {
        None => None,
        Some((anchor_x, anchor_y)) => {
            let bx = spec_clamp(point.x as int, 0, spec_at_least_one(image_width));
            let by = spec_clamp(point.y as int, 0, spec_at_least_one(image_height));
            let raw_w = spec_abs(bx - anchor_x) as u32;
            let raw_h = spec_abs(by - anchor_y) as u32;
            let (w, h) = match spec_crop_ratio(crop, image_width, image_height) {
                Some((rx, ry)) => spec_adjust_ratio_to_fit(raw_w, raw_h, rx, ry),
                None => (raw_w, raw_h),
            };
            if w > i32::MAX as u32 || h > i32::MAX as u32 {
                None
            } else if w < CROP_MIN_SIZE || h < CROP_MIN_SIZE {
                None
            } else {
                let (x, y) = match handle {
                    RectangleHandle::TopLeft => (spec_sat_i32(anchor_x - w), spec_sat_i32(anchor_y - h)),
                    RectangleHandle::TopRight => (anchor_x as int, spec_sat_i32(anchor_y - h)),
                    RectangleHandle::BottomLeft => (spec_sat_i32(anchor_x - w), anchor_y as int),
                    RectangleHandle::BottomRight => (anchor_x as int, anchor_y as int),
                };
                Some(CropElement { x: x as i32, y: y as i32, width: w, height: h, ..crop })
            }
        },
    }
}

pub fn resized_crop_from_handle(
    crop: &CropElement,
    handle: RectangleHandle,
    point: ToolPoint,
    image_width: i32,
    image_height: i32,
) -> (r: Option<CropElement>)
    requires
        spec_crop_resize_defined(*crop, handle, point, image_width, image_height),
    ensures
        r == spec_resized_crop(*crop, handle, point, image_width, image_height),
{
    let crop_bounds = ToolBounds { x: crop.x, y: crop.y, width: crop.width, height: crop.height };
    let (anchor_x, anchor_y) = match opposite_corner(crop_bounds, handle) {
        Some(corner) => corner,
        None => return None,
    };
    let max_x = if image_width >= 1 { image_width } else { 1 };
    let max_y = if image_height >= 1 { image_height } else { 1 };
    let bounded_x = clamp_i32(point.x, 0, max_x);
    let bounded_y = clamp_i32(point.y, 0, max_y);
    let dx = bounded_x - anchor_x;
    let dy = bounded_y - anchor_y;
    let mut next_width: u32 = if dx < 0 { (-dx) as u32 } else { dx as u32 };
    let mut next_height: u32 = if dy < 0 { (-dy) as u32 } else { dy as u32 };
    if let Some((ratio_x, ratio_y)) = crop.options.preset.resolve_ratio(max_x as u32, max_y as u32) {
        let adjusted = adjust_ratio_to_fit(next_width, next_height, ratio_x, ratio_y);
        next_width = adjusted.0;
        next_height = adjusted.1;
    }
    if next_width > i32::MAX as u32 || next_height > i32::MAX as u32 {
        return None;
    }
    let w = next_width as i32;
    let h = next_height as i32;
    let (x, y) = match handle {
        RectangleHandle::TopLeft => (sat_sub_i32(anchor_x, w), sat_sub_i32(anchor_y, h)),
        RectangleHandle::TopRight => (anchor_x, sat_sub_i32(anchor_y, h)),
        RectangleHandle::BottomLeft => (sat_sub_i32(anchor_x, w), anchor_y),
        RectangleHandle::BottomRight => (anchor_x, anchor_y),
    };
    if next_width < CROP_MIN_SIZE || next_height < CROP_MIN_SIZE {
        return None;
    }
    Some(CropElement { id: crop.id, x, y, width: next_width, height: next_height, options: crop.options })
}

/// The kind and box of an object that can be resized by its corners.
pub open spec fn spec_resizable_box(object: ToolObject) -> Option<(ResizableObjectKind, ToolBounds)> {
    match object {
        ToolObject::Rectangle(r) => Some(
            (ResizableObjectKind::Rectangle, ToolBounds { x: r.x, y: r.y, width: r.width, height: r.height }),
        ),
        ToolObject::Blur(b) => Some(
            (
                ResizableObjectKind::Blur,
                ToolBounds { x: b.region.x, y: b.region.y, width: b.region.width, height: b.region.height },
            ),
        ),
        ToolObject::Crop(c) => Some(
            (ResizableObjectKind::Crop, ToolBounds { x: c.x, y: c.y, width: c.width, height: c.height }),
        ),
        _ => None,
    }
}

/// Testing `point` against the corners of a resizable object is defined.
pub open spec fn spec_object_handle_test_defined(object: ToolObject, point: ToolPoint) -> bool {
    match spec_resizable_box(object) {
        Some((_, b)) => spec_handle_test_defined(b.x, b.y, b.width, b.height, point),
        None => true,
    }
}

/// The corner of a resizable object under `point`, with the object's kind.
pub open spec fn spec_object_handle_at_point(object: ToolObject, point: ToolPoint) -> Option<
    (ResizableObjectKind, RectangleHandle),
> {
    match spec_resizable_box(object) {
        Some((kind, b)) => match spec_handle_at_point(b.x, b.y, b.width, b.height, point) {
            Some(handle) => Some((kind, handle)),
            None => None,
        },
        None => None,
    }
}

/// The corner handle of a rectangle under `point`.
pub fn rectangle_handle_at_point(rectangle: &RectangleElement, point: ToolPoint) -> (r: Option<RectangleHandle>)
    requires
        spec_handle_test_defined(rectangle.x, rectangle.y, rectangle.width, rectangle.height, point),
    ensures
        r == spec_handle_at_point(rectangle.x, rectangle.y, rectangle.width, rectangle.height, point),
{
    handle_at_point_for_bounds(rectangle.x, rectangle.y, rectangle.width, rectangle.height, point)
}

/// The corner handle under `point` of a rectangle, blur region or crop box, with its kind;
/// none for other objects.
pub fn resizable_object_handle_at_point(object: &ToolObject, point: ToolPoint) -> (r: Option<
    (ResizableObjectKind, RectangleHandle),
>)
    requires
        spec_object_handle_test_defined(*object, point),
    ensures
        r == spec_object_handle_at_point(*object, point),
{
    match object {
        ToolObject::Rectangle(rectangle) => match rectangle_handle_at_point(rectangle, point) {
            Some(handle) => Some((ResizableObjectKind::Rectangle, handle)),
            None => None,
        },
        ToolObject::Blur(blur) => match handle_at_point_for_bounds(
            blur.region.x,
            blur.region.y,
            blur.region.width,
            blur.region.height,
            point,
        ) {
            Some(handle) => Some((ResizableObjectKind::Blur, handle)),
            None => None,
        },
        ToolObject::Crop(crop) => match handle_at_point_for_bounds(crop.x, crop.y, crop.width, crop.height, point) {
            Some(handle) => Some((ResizableObjectKind::Crop, handle)),
            None => None,
        },
        _ => None,
    }
}

/// The rectangle's box with the corner `handle` dragged to `point`.
pub fn resized_rectangle_from_handle(
    rectangle: &RectangleElement,
    handle: RectangleHandle,
    point: ToolPoint,
    image_width: i32,
    image_height: i32,
) -> (r: Option<ToolBounds>)
    ensures
        r == spec_resized_bounds(
            ToolBounds { x: rectangle.x, y: rectangle.y, width: rectangle.width, height: rectangle.height },
            handle,
            point,
            ImageBounds { width: image_width, height: image_height },
        ),
{
    resized_bounds_from_handle(
        ToolBounds { x: rectangle.x, y: rectangle.y, width: rectangle.width, height: rectangle.height },
        handle,
        point,
        ImageBounds { width: image_width, height: image_height },
    )
}

/// What the object with `id` becomes when its corner `handle` is dragged to `point`, if the
/// object has the given kind and the resize is allowed: the resized box, clipped to the
/// image.
pub open spec fn spec_resize_outcome(
    objects: Seq<ToolObject>,
    id: u64,
    kind: ResizableObjectKind,
    handle: RectangleHandle,
    point: ToolPoint,
    image_width: i32,
    image_height: i32,
) -> Option<ToolObject> {
    let image = ImageBounds { width: image_width, height: image_height };
    match (kind, spec_find(objects, id)) {
        (ResizableObjectKind::Rectangle, Some(ToolObject::Rectangle(r))) => match spec_resized_bounds(
            ToolBounds { x: r.x, y: r.y, width: r.width, height: r.height },
            handle,
            point,
            image,
        ) {
            Some(b) => {
                let c = spec_clamp_bounds(b, image);
                Some(ToolObject::Rectangle(RectangleElement { x: c.x, y: c.y, width: c.width, height: c.height, ..r }))
            },
            None => None,
        },
        (ResizableObjectKind::Blur, Some(ToolObject::Blur(bl))) => match spec_resized_bounds(
            ToolBounds { x: bl.region.x, y: bl.region.y, width: bl.region.width, height: bl.region.height },
            handle,
            point,
            image,
        ) {
            Some(b) => {
                let c = spec_clamp_bounds(b, image);
                Some(
                    ToolObject::Blur(
                        BlurElement {
                            region: BlurRegion { x: c.x, y: c.y, width: c.width, height: c.height },
                            anchor: ToolPoint { x: c.x, y: c.y },
                            ..bl
                        },
                    ),
                )
            },
            None => None,
        },
        (ResizableObjectKind::Crop, Some(ToolObject::Crop(cr))) => match spec_resized_crop(
            cr,
            handle,
            point,
            image_width,
            image_height,
        ) {
            Some(next) => {
                let c = spec_clamp_bounds(
                    ToolBounds { x: next.x, y: next.y, width: next.width, height: next.height },
                    image,
                );
                if c.width < CROP_MIN_SIZE || c.height < CROP_MIN_SIZE {
                    None
                } else {
                    Some(ToolObject::Crop(CropElement { x: c.x, y: c.y, width: c.width, height: c.height, ..cr }))
                }
            },
            None => None,
        },
        _ => None,
    }
}

/// Resizing a crop box by a corner is defined for the object with `id`.
pub open spec fn spec_resize_defined(
    objects: Seq<ToolObject>,
    id: u64,
    kind: ResizableObjectKind,
    handle: RectangleHandle,
    point: ToolPoint,
    image_width: i32,
    image_height: i32,
) -> bool {
    match (kind, spec_find(objects, id)) {
        (ResizableObjectKind::Crop, Some(ToolObject::Crop(c))) => spec_crop_resize_defined(
            c,
            handle,
            point,
            image_width,
            image_height,
        ),
        _ => true,
    }
}

fn resize_rectangle_by_handle(
    tools: &mut EditorTools,
    object_id: u64,
    handle: RectangleHandle,
    point: ToolPoint,
    image_width: i32,
    image_height: i32,
) -> (changed: bool)
    ensures
        changed == spec_resize_outcome(
            old(tools).spec_objects(),
            object_id,
            ResizableObjectKind::Rectangle,
            handle,
            point,
            image_width,
            image_height,
        ) is Some,
        !changed ==> *final(tools) == *old(tools),
        changed ==> final(tools).spec_objects() == old(tools).spec_objects().update(
            spec_index_of(old(tools).spec_objects(), object_id),
            spec_resize_outcome(
                old(tools).spec_objects(),
                object_id,
                ResizableObjectKind::Rectangle,
                handle,
                point,
                image_width,
                image_height,
            ).unwrap(),
        ),
        changed ==> final(tools).spec_next_id() == old(tools).spec_next_id(),
        changed ==> final(tools).spec_active_pen_stroke() == old(tools).spec_active_pen_stroke(),
        changed ==> final(tools).spec_active_text_box() == old(tools).spec_active_text_box(),
        changed ==> final(tools).spec_same_settings(old(tools)),
{
    let image_bounds = ImageBounds { width: image_width, height: image_height };
    let ghost before = tools.spec_objects();
    let rectangle = match tools.object(object_id) {
        Some(ToolObject::Rectangle(rectangle)) => *rectangle,
        _ => return false,
    };
    proof {
        lemma_first_is_first_of_its_kind(before, object_id);
    }
    let bounds = match resized_rectangle_from_handle(&rectangle, handle, point, image_width, image_height) {
        Some(b) => b,
        None => return false,
    };
    let result = tools.resize_rectangle(object_id, bounds, image_bounds);
    proof {
        if result is Ok {
            lemma_index_of(before, object_id);
            assert(tools.spec_objects() =~= before.update(
                spec_index_of(before, object_id),
                spec_resize_outcome(before, object_id, ResizableObjectKind::Rectangle, handle, point, image_width, image_height).unwrap(),
            ));
        }
    }
    result.is_ok()
}

fn resize_blur_by_handle(
    tools: &mut EditorTools,
    object_id: u64,
    handle: RectangleHandle,
    point: ToolPoint,
    image_width: i32,
    image_height: i32,
) -> (changed: bool)
    ensures
        changed == spec_resize_outcome(
            old(tools).spec_objects(),
            object_id,
            ResizableObjectKind::Blur,
            handle,
            point,
            image_width,
            image_height,
        ) is Some,
        !changed ==> *final(tools) == *old(tools),
        changed ==> final(tools).spec_objects() == old(tools).spec_objects().update(
            spec_index_of(old(tools).spec_objects(), object_id),
            spec_resize_outcome(
                old(tools).spec_objects(),
                object_id,
                ResizableObjectKind::Blur,
                handle,
                point,
                image_width,
                image_height,
            ).unwrap(),
        ),
        changed ==> final(tools).spec_next_id() == old(tools).spec_next_id(),
        changed ==> final(tools).spec_active_pen_stroke() == old(tools).spec_active_pen_stroke(),
        changed ==> final(tools).spec_active_text_box() == old(tools).spec_active_text_box(),
        changed ==> final(tools).spec_same_settings(old(tools)),
{
    let image_bounds = ImageBounds { width: image_width, height: image_height };
    let ghost before = tools.spec_objects();
    let blur = match tools.object(object_id) {
        Some(ToolObject::Blur(blur)) => *blur,
        _ => return false,
    };
    proof {
        lemma_first_is_first_of_its_kind(before, object_id);
    }
    let bounds = match resized_bounds_from_handle(
        ToolBounds { x: blur.region.x, y: blur.region.y, width: blur.region.width, height: blur.region.height },
        handle,
        point,
        image_bounds,
    ) {
        Some(b) => b,
        None => return false,
    };
    let result = tools.resize_blur(object_id, bounds, image_bounds);
    proof {
        if result is Ok {
            lemma_index_of(before, object_id);
            assert(tools.spec_objects() =~= before.update(
                spec_index_of(before, object_id),
                spec_resize_outcome(before, object_id, ResizableObjectKind::Blur, handle, point, image_width, image_height).unwrap(),
            ));
        }
    }
    result.is_ok()
}

fn resize_crop_by_handle(
    tools: &mut EditorTools,
    object_id: u64,
    handle: RectangleHandle,
    point: ToolPoint,
    image_width: i32,
    image_height: i32,
) -> (changed: bool)
    requires
        spec_resize_defined(old(tools).spec_objects(), object_id, ResizableObjectKind::Crop, handle, point, image_width, image_height),
    ensures
        changed == spec_resize_outcome(
            old(tools).spec_objects(),
            object_id,
            ResizableObjectKind::Crop,
            handle,
            point,
            image_width,
            image_height,
        ) is Some,
        !changed ==> *final(tools) == *old(tools),
        changed ==> final(tools).spec_objects() == old(tools).spec_objects().update(
            spec_index_of(old(tools).spec_objects(), object_id),
            spec_resize_outcome(
                old(tools).spec_objects(),
                object_id,
                ResizableObjectKind::Crop,
                handle,
                point,
                image_width,
                image_height,
            ).unwrap(),
        ),
        changed ==> final(tools).spec_next_id() == old(tools).spec_next_id(),
        changed ==> final(tools).spec_active_pen_stroke() == old(tools).spec_active_pen_stroke(),
        changed ==> final(tools).spec_active_text_box() == old(tools).spec_active_text_box(),
        changed ==> final(tools).spec_same_settings(old(tools)),
{
    let image_bounds = ImageBounds { width: image_width, height: image_height };
    let ghost before = tools.spec_objects();
    let crop = match tools.object(object_id) {
        Some(ToolObject::Crop(crop)) => *crop,
        _ => return false,
    };
    proof {
        lemma_first_is_first_of_its_kind(before, object_id);
    }
    let next_crop = match resized_crop_from_handle(&crop, handle, point, image_width, image_height) {
        Some(c) => c,
        None => return false,
    };
    let result = tools.resize_crop(
        object_id,
        ToolBounds { x: next_crop.x, y: next_crop.y, width: next_crop.width, height: next_crop.height },
        image_bounds,
    );
    proof {
        if result is Ok {
            lemma_index_of(before, object_id);
            assert(tools.spec_objects() =~= before.update(
                spec_index_of(before, object_id),
                spec_resize_outcome(before, object_id, ResizableObjectKind::Crop, handle, point, image_width, image_height).unwrap(),
            ));
        }
    }
    result.is_ok()
}

/// Drags the corner `handle` of the object with `id` to `point`; reports whether the object
/// changed. Nothing changes when the object is missing, has another kind, or the resize is
/// refused.
pub fn resize_object_from_handle(
    tools: &mut EditorTools,
    object_id: u64,
    kind: ResizableObjectKind,
    handle: RectangleHandle,
    point: ToolPoint,
    image_width: i32,
    image_height: i32,
) -> (changed: bool)
    requires
        spec_resize_defined(old(tools).spec_objects(), object_id, kind, handle, point, image_width, image_height),
    ensures
        changed == spec_resize_outcome(
            old(tools).spec_objects(),
            object_id,
            kind,
            handle,
            point,
            image_width,
            image_height,
        ) is Some,
        !changed ==> *final(tools) == *old(tools),
        changed ==> final(tools).spec_objects() == old(tools).spec_objects().update(
            spec_index_of(old(tools).spec_objects(), object_id),
            spec_resize_outcome(
                old(tools).spec_objects(),
                object_id,
                kind,
                handle,
                point,
                image_width,
                image_height,
            ).unwrap(),
        ),
        changed ==> final(tools).spec_next_id() == old(tools).spec_next_id(),
        changed ==> final(tools).spec_active_pen_stroke() == old(tools).spec_active_pen_stroke(),
        changed ==> final(tools).spec_active_text_box() == old(tools).spec_active_text_box(),
        changed ==> final(tools).spec_same_settings(old(tools)),
{
    match kind {
        ResizableObjectKind::Rectangle => resize_rectangle_by_handle(tools, object_id, handle, point, image_width, image_height),
        ResizableObjectKind::Blur => resize_blur_by_handle(tools, object_id, handle, point, image_width, image_height),
        ResizableObjectKind::Crop => resize_crop_by_handle(tools, object_id, handle, point, image_width, image_height),
    }
}

/// The ids among `ids[..n]` that name a placed object, in order.
pub open spec fn spec_existing_ids(objects: Seq<ToolObject>, ids: Seq<u64>, n: int) -> Seq<u64>
    decreases n,
{
    if n <= 0 {
        Seq::empty()
    } else {
        let prev = spec_existing_ids(objects, ids, n - 1);
        if spec_find(objects, ids[n - 1]) is Some {
            prev.push(ids[n - 1])
        } else {
            prev
        }
    }
}

/// Drops from the selection every id that no longer names a placed object.
pub fn ensure_selected_object_exists(tools: &EditorTools, selected_object_ids: &mut Vec<u64>)
    ensures
        final(selected_object_ids)@ == spec_existing_ids(
            tools.spec_objects(),
            old(selected_object_ids)@,
            old(selected_object_ids)@.len() as int,
        ),
{
    let mut ids: Vec<u64> = Vec::new();
    std::mem::swap(&mut ids, selected_object_ids);
    let mut i: usize = 0;
    while i < ids.len()
        invariant
            0 <= i <= ids@.len(),
            ids@ == old(selected_object_ids)@,
            selected_object_ids@ == spec_existing_ids(tools.spec_objects(), ids@, i as int),
        decreases ids.len() - i,
    {
        let id = ids[i];
        if tools.object(id).is_some() {
            selected_object_ids.push(id);
        }
        i = i + 1;
    }
}

/// Makes `object_id` the only selected object.
pub fn set_single_selection(selected_object_ids: &mut Vec<u64>, object_id: u64)
    ensures
        final(selected_object_ids)@ == seq![object_id],
{
    selected_object_ids.clear();
    selected_object_ids.push(object_id);
}

/// Selects only `object_id`, or nothing.
pub fn set_optional_single_selection(selected_object_ids: &mut Vec<u64>, object_id: Option<u64>)
    ensures
        final(selected_object_ids)@ == (match object_id {
            Some(id) => seq![id],
            None => Seq::<u64>::empty(),
        }),
{
    selected_object_ids.clear();
    if let Some(id) = object_id {
        selected_object_ids.push(id);
    }
}

/// Whether `object_id` is selected.
pub fn is_object_selected(selected_object_ids: &[u64], object_id: u64) -> (b: bool)
    ensures
        b == selected_object_ids@.contains(object_id),
{
    let mut i: usize = 0;
    while i < selected_object_ids.len()
        invariant
            0 <= i <= selected_object_ids@.len(),
            forall|j: int| 0 <= j < i ==> selected_object_ids@[j] != object_id,
        decreases selected_object_ids.len() - i,
    {
        if selected_object_ids[i] == object_id {
            return true;
        }
        i = i + 1;
    }
    false
}

/// The status line shown after a resize.
pub open spec fn spec_resize_status(kind: ResizableObjectKind) -> Seq<char> {
    match kind {
        ResizableObjectKind::Rectangle => "rectangle resized"@,
        ResizableObjectKind::Blur => "blur region resized"@,
        ResizableObjectKind::Crop => "crop frame resized"@,
    }
}

/// The status line shown after a resize.
pub fn resize_status_label(kind: ResizableObjectKind) -> (s: &'static str)
    ensures
        s@ == spec_resize_status(kind),
{
    match kind {
        ResizableObjectKind::Rectangle => "rectangle resized",
        ResizableObjectKind::Blur => "blur region resized",
        ResizableObjectKind::Crop => "crop frame resized",
    }
}

/// The label of a tool's toolbar button.
pub open spec fn spec_tool_kind_label(tool: ToolKind) -> Seq<char> {
    match tool {
        ToolKind::Select => "Select"@,
        ToolKind::Pan => "Pan"@,
        ToolKind::Blur => "Blur"@,
        ToolKind::Pen => "Pen"@,
        ToolKind::Arrow => "Arrow"@,
        ToolKind::Rectangle => "Rect"@,
        ToolKind::Crop => "Crop"@,
        ToolKind::Text => "Text"@,
        ToolKind::Ocr => "OCR"@,
    }
}

/// The label of a tool's toolbar button.
pub fn tool_kind_label(tool: ToolKind) -> (s: &'static str)
    ensures
        s@ == spec_tool_kind_label(tool),
{
    match tool {
        ToolKind::Select => "Select",
        ToolKind::Pan => "Pan",
        ToolKind::Blur => "Blur",
        ToolKind::Pen => "Pen",
        ToolKind::Arrow => "Arrow",
        ToolKind::Rectangle => "Rect",
        ToolKind::Crop => "Crop",
        ToolKind::Text => "Text",
        ToolKind::Ocr => "OCR",
    }
}

} // verus!
