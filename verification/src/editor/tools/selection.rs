//! Moving, resizing, focusing, removing and replacing placed objects.

use vstd::prelude::*;

use super::{
    lemma_index_of, lemma_kind_index_of, spec_find, spec_find_kind, spec_index_of, spec_kind_index_of, spec_unchanged_except, ArrowElement, BlurElement,
    BlurRegion, CropElement, EditorTools, ImageBounds, PenPoint, PenStroke, RectangleElement, TextElement,
    ToolBounds, ToolError, ToolKind, ToolObject, ToolPoint, CROP_MIN_SIZE,
};
use crate::arith::{clamp_i32, sat_add_i32, sat_sub_i32, spec_clamp, spec_max, spec_min, spec_sat_i32};

verus! {

/// The new top-left corner of a `width x height` box at `(x, y)` moved by `(dx, dy)`:
/// each axis is clamped on its own so the box stays on the image where it fits.
pub open spec fn spec_move_box(
    x: i32,
    y: i32,
    width: u32,
    height: u32,
    dx: i32,
    dy: i32,
    image: ImageBounds,
) -> (i32, i32) {
    let bw = spec_min(width as int, i32::MAX as int);
    let bh = spec_min(height as int, i32::MAX as int);
    let limit_x = spec_max(spec_sat_i32(image.width - bw), 0);
    let limit_y = spec_max(spec_sat_i32(image.height - bh), 0);
    (
        spec_clamp(spec_sat_i32(x + dx), 0, limit_x) as i32,
        spec_clamp(spec_sat_i32(y + dy), 0, limit_y) as i32,
    )
}

/// `bounds` moved and cut so that it starts on the image and ends within it; each side
/// keeps at least one pixel.
pub open spec fn spec_clamp_bounds(bounds: ToolBounds, image: ImageBounds) -> ToolBounds {
    let max_x = spec_max(spec_sat_i32(image.width - 1), 0);
    let max_y = spec_max(spec_sat_i32(image.height - 1), 0);
    let x = spec_clamp(bounds.x as int, 0, max_x);
    let y = spec_clamp(bounds.y as int, 0, max_y);
    let max_width = spec_max(spec_sat_i32(image.width - x), 1);
    let max_height = spec_max(spec_sat_i32(image.height - y), 1);
    ToolBounds {
        x: x as i32,
        y: y as i32,
        width: spec_min(bounds.width as int, max_width) as u32,
        height: spec_min(bounds.height as int, max_height) as u32,
    }
}

/// The least delta that keeps a span's low end on the image.
pub open spec fn spec_min_delta(min_coord: i32) -> int {
    spec_sat_i32(0 - min_coord)
}

/// The greatest delta that keeps a span's high end on the image.
pub open spec fn spec_max_delta(max_coord: i32, axis_max: i32) -> int {
    spec_sat_i32(axis_max - max_coord)
}

/// A span can be shifted along an axis only when it fits on that axis.
pub open spec fn spec_shift_defined(min_coord: i32, max_coord: i32, axis_max: i32) -> bool {
    spec_min_delta(min_coord) <= spec_max_delta(max_coord, axis_max)
}

/// The delta that moves a span `[min_coord, max_coord]` as far as asked without leaving
/// `[0, axis_max]`.
pub open spec fn spec_shift(delta: i32, min_coord: i32, max_coord: i32, axis_max: i32) -> i32 {
    spec_clamp(delta as int, spec_min_delta(min_coord), spec_max_delta(max_coord, axis_max)) as i32
}

/// Smallest and largest coordinates among the first `n` points: `(min_x, max_x, min_y, max_y)`.
pub open spec fn spec_pen_bounds_upto(points: Seq<PenPoint>, n: int) -> (i32, i32, i32, i32)
    decreases n,
{
    if n <= 1 {
        (points[0].x, points[0].x, points[0].y, points[0].y)
    } else {
        let (min_x, max_x, min_y, max_y) = spec_pen_bounds_upto(points, n - 1);
        let p = points[n - 1];
        (
            spec_min(min_x as int, p.x as int) as i32,
            spec_max(max_x as int, p.x as int) as i32,
            spec_min(min_y as int, p.y as int) as i32,
            spec_max(max_y as int, p.y as int) as i32,
        )
    }
}

/// Smallest and largest coordinates of a stroke's points.
pub open spec fn spec_pen_bounds(points: Seq<PenPoint>) -> (i32, i32, i32, i32) {
    spec_pen_bounds_upto(points, points.len() as int)
}

/// Every point moved by `(dx, dy)`, saturating.
pub open spec fn spec_translate(points: Seq<PenPoint>, dx: i32, dy: i32) -> Seq<PenPoint> {
    Seq::new(
        points.len(),
        |i: int|
            PenPoint {
                x: spec_sat_i32(points[i].x + dx) as i32,
                y: spec_sat_i32(points[i].y + dy) as i32,
            },
    )
}

/// The last valid coordinate on an axis of the given length.
pub open spec fn spec_axis_max(length: i32) -> i32 {
    spec_max(spec_sat_i32(length - 1), 0) as i32
}

/// Whether moving `object` on an image of the given size is defined: strokes and arrows
/// must fit on the image along each axis.
pub open spec fn spec_move_defined(object: ToolObject, image_width: i32, image_height: i32) -> bool {
    let max_x = spec_axis_max(image_width);
    let max_y = spec_axis_max(image_height);
    match object {
        ToolObject::Pen(stroke) => stroke.points@.len() > 0 ==> {
            let (min_px, max_px, min_py, max_py) = spec_pen_bounds(stroke.points@);
            spec_shift_defined(min_px, max_px, max_x) && spec_shift_defined(min_py, max_py, max_y)
        },
        ToolObject::Arrow(arrow) => spec_shift_defined(
            spec_min(arrow.start.x as int, arrow.end.x as int) as i32,
            spec_max(arrow.start.x as int, arrow.end.x as int) as i32,
            max_x,
        ) && spec_shift_defined(
            spec_min(arrow.start.y as int, arrow.end.y as int) as i32,
            spec_max(arrow.start.y as int, arrow.end.y as int) as i32,
            max_y,
        ),
        _ => true,
    }
}

/// `after` is `before` moved by `(dx, dy)` on an image of the given size: boxes keep their
/// size and slide along each axis as far as the image allows; strokes and arrows move as a
/// whole, by the largest part of the delta that keeps all of them on the image; text boxes
/// keep their anchor on the image.
pub open spec fn spec_moved(
    before: ToolObject,
    after: ToolObject,
    dx: i32,
    dy: i32,
    image_width: i32,
    image_height: i32,
) -> bool {
    let image = ImageBounds { width: image_width, height: image_height };
    let max_x = spec_axis_max(image_width);
    let max_y = spec_axis_max(image_height);
    match (before, after) {
        (ToolObject::Blur(b), ToolObject::Blur(a)) => {
            let (x, y) = spec_move_box(b.region.x, b.region.y, b.region.width, b.region.height, dx, dy, image);
            a == BlurElement {
                region: BlurRegion { x, y, ..b.region },
                anchor: ToolPoint { x, y },
                ..b
            }
        },
        (ToolObject::Pen(b), ToolObject::Pen(a)) => {
            &&& a.id == b.id
            &&& a.options == b.options
            &&& a.finalized == b.finalized
            &&& if b.points@.len() == 0 {
                a.points@ == b.points@
            } else {
                let (min_px, max_px, min_py, max_py) = spec_pen_bounds(b.points@);
                a.points@ == spec_translate(
                    b.points@,
                    spec_shift(dx, min_px, max_px, max_x),
                    spec_shift(dy, min_py, max_py, max_y),
                )
            }
        },
        (ToolObject::Arrow(b), ToolObject::Arrow(a)) => {
            let sx = spec_shift(
                dx,
                spec_min(b.start.x as int, b.end.x as int) as i32,
                spec_max(b.start.x as int, b.end.x as int) as i32,
                max_x,
            );
            let sy = spec_shift(
                dy,
                spec_min(b.start.y as int, b.end.y as int) as i32,
                spec_max(b.start.y as int, b.end.y as int) as i32,
                max_y,
            );
            a == ArrowElement {
                start: ToolPoint {
                    x: spec_sat_i32(b.start.x + sx) as i32,
                    y: spec_sat_i32(b.start.y + sy) as i32,
                },
                end: ToolPoint {
                    x: spec_sat_i32(b.end.x + sx) as i32,
                    y: spec_sat_i32(b.end.y + sy) as i32,
                },
                ..b
            }
        },
        (ToolObject::Rectangle(b), ToolObject::Rectangle(a)) => {
            let (x, y) = spec_move_box(b.x, b.y, b.width, b.height, dx, dy, image);
            a == RectangleElement { x, y, ..b }
        },
        (ToolObject::Crop(b), ToolObject::Crop(a)) => {
            let (x, y) = spec_move_box(b.x, b.y, b.width, b.height, dx, dy, image);
            a == CropElement { x, y, ..b }
        },
        (ToolObject::Text(b), ToolObject::Text(a)) => {
            &&& a.id == b.id
            &&& a.content == b.content
            &&& a.cursor_chars == b.cursor_chars
            &&& a.options == b.options
            &&& a.x == spec_clamp(spec_sat_i32(b.x + dx), 0, max_x as int)
            &&& a.y == spec_clamp(spec_sat_i32(b.y + dy), 0, max_y as int)
        },
        _ => false,
    }
}

fn move_box_by(x: i32, y: i32, width: u32, height: u32, dx: i32, dy: i32, image: ImageBounds) -> (r: (
    i32,
    i32,
))
    ensures
        r == spec_move_box(x, y, width, height, dx, dy, image),
{
    let bounded_width: i32 = if width > i32::MAX as u32 { i32::MAX } else { width as i32 };
    let bounded_height: i32 = if height > i32::MAX as u32 { i32::MAX } else { height as i32 };
    let room_x = sat_sub_i32(image.width, bounded_width);
    let room_y = sat_sub_i32(image.height, bounded_height);
    let limit_x = if room_x > 0 { room_x } else { 0 };
    let limit_y = if room_y > 0 { room_y } else { 0 };
    (clamp_i32(sat_add_i32(x, dx), 0, limit_x), clamp_i32(sat_add_i32(y, dy), 0, limit_y))
}

fn axis_max(length: i32) -> (m: i32)
    ensures
        m == spec_axis_max(length),
{
    let last = sat_sub_i32(length, 1);
    if last > 0 {
        last
    } else {
        0
    }
}

fn clamp_bounds_to_image(bounds: ToolBounds, image: ImageBounds) -> (r: ToolBounds)
    ensures
        r == spec_clamp_bounds(bounds, image),
{
    let max_x = axis_max(image.width);
    let max_y = axis_max(image.height);
    let x = clamp_i32(bounds.x, 0, max_x);
    let y = clamp_i32(bounds.y, 0, max_y);
    let room_w = sat_sub_i32(image.width, x);
    let room_h = sat_sub_i32(image.height, y);
    let max_width: u32 = if room_w > 1 { room_w as u32 } else { 1 };
    let max_height: u32 = if room_h > 1 { room_h as u32 } else { 1 };
    ToolBounds::new(
        x,
        y,
        if bounds.width < max_width { bounds.width } else { max_width },
        if bounds.height < max_height { bounds.height } else { max_height },
    )
}

fn clamp_translation_delta(delta: i32, min_coord: i32, max_coord: i32, axis_max: i32) -> (r: i32)
    requires
        spec_shift_defined(min_coord, max_coord, axis_max),
    ensures
        r == spec_shift(delta, min_coord, max_coord, axis_max),
{
    let min_delta = sat_sub_i32(0, min_coord);
    let max_delta = sat_sub_i32(axis_max, max_coord);
    clamp_i32(delta, min_delta, max_delta)
}

pub(crate) fn pen_point_bounds(points: &Vec<PenPoint>) -> (r: Option<(i32, i32, i32, i32)>)
    ensures
        points@.len() == 0 ==> r is None,
        points@.len() > 0 ==> r == Some(spec_pen_bounds(points@)),
{
    if points.len() == 0 {
        return None;
    }
    let first = points[0];
    let mut min_x = first.x;
    let mut max_x = first.x;
    let mut min_y = first.y;
    let mut max_y = first.y;
    let mut i: usize = 1;
    while i < points.len()
        invariant
            1 <= i <= points.len(),
            (min_x, max_x, min_y, max_y) == spec_pen_bounds_upto(points@, i as int),
        decreases points.len() - i,
    {
        let p = points[i];
        if p.x < min_x {
            min_x = p.x;
        }
        if p.x > max_x {
            max_x = p.x;
        }
        if p.y < min_y {
            min_y = p.y;
        }
        if p.y > max_y {
            max_y = p.y;
        }
        i = i + 1;
    }
    Some((min_x, max_x, min_y, max_y))
}

fn translate_pen_points(points: &mut Vec<PenPoint>, dx: i32, dy: i32)
    ensures
        final(points)@ == spec_translate(old(points)@, dx, dy),
{
    let mut i: usize = 0;
    while i < points.len()
        invariant
            0 <= i <= points.len(),
            points@.len() == old(points)@.len(),
            forall|j: int|
                0 <= j < i ==> #[trigger] points@[j] == spec_translate(old(points)@, dx, dy)[j],
            forall|j: int| i <= j < points@.len() ==> #[trigger] points@[j] == old(points)@[j],
        decreases points.len() - i,
    {
        let p = points[i];
        points[i] = PenPoint::new(sat_add_i32(p.x, dx), sat_add_i32(p.y, dy));
        i = i + 1;
    }
    assert(points@ =~= spec_translate(old(points)@, dx, dy));
}

/// Moves one object by `(dx, dy)` as `spec_moved` describes.
fn move_one(object: &mut ToolObject, dx: i32, dy: i32, image_width: i32, image_height: i32)
    requires
        spec_move_defined(*old(object), image_width, image_height),
    ensures
        spec_moved(*old(object), *final(object), dx, dy, image_width, image_height),
{
    let image = ImageBounds::new(image_width, image_height);
    let max_x = axis_max(image_width);
    let max_y = axis_max(image_height);
    match object {
        ToolObject::Blur(blur) => {
            let (x, y) = move_box_by(
                blur.region.x,
                blur.region.y,
                blur.region.width,
                blur.region.height,
                dx,
                dy,
                image,
            );
            blur.region.x = x;
            blur.region.y = y;
            blur.anchor = ToolPoint::new(x, y);
        },
        ToolObject::Pen(stroke) => {
            match pen_point_bounds(&stroke.points) {
                Some((min_x, max_px, min_y, max_py)) => {
                    let bounded_dx = clamp_translation_delta(dx, min_x, max_px, max_x);
                    let bounded_dy = clamp_translation_delta(dy, min_y, max_py, max_y);
                    translate_pen_points(&mut stroke.points, bounded_dx, bounded_dy);
                },
                None => {},
            }
        },
        ToolObject::Arrow(arrow) => {
            let min_ax = if arrow.start.x < arrow.end.x { arrow.start.x } else { arrow.end.x };
            let max_ax = if arrow.start.x < arrow.end.x { arrow.end.x } else { arrow.start.x };
            let min_ay = if arrow.start.y < arrow.end.y { arrow.start.y } else { arrow.end.y };
            let max_ay = if arrow.start.y < arrow.end.y { arrow.end.y } else { arrow.start.y };
            let bounded_dx = clamp_translation_delta(dx, min_ax, max_ax, max_x);
            let bounded_dy = clamp_translation_delta(dy, min_ay, max_ay, max_y);
            arrow.start.x = sat_add_i32(arrow.start.x, bounded_dx);
            arrow.start.y = sat_add_i32(arrow.start.y, bounded_dy);
            arrow.end.x = sat_add_i32(arrow.end.x, bounded_dx);
            arrow.end.y = sat_add_i32(arrow.end.y, bounded_dy);
        },
        ToolObject::Rectangle(rectangle) => {
            let (x, y) = move_box_by(
                rectangle.x,
                rectangle.y,
                rectangle.width,
                rectangle.height,
                dx,
                dy,
                image,
            );
            rectangle.x = x;
            rectangle.y = y;
        },
        ToolObject::Crop(crop) => {
            let (x, y) = move_box_by(crop.x, crop.y, crop.width, crop.height, dx, dy, image);
            crop.x = x;
            crop.y = y;
        },
        ToolObject::Text(text) => {
            text.x = clamp_i32(sat_add_i32(text.x, dx), 0, max_x);
            text.y = clamp_i32(sat_add_i32(text.y, dy), 0, max_y);
        },
    }
}

} // verus!

verus! {

/// The largest id among `objects`, or zero when there are none.
pub open spec fn spec_max_id(objects: Seq<ToolObject>) -> u64
    decreases objects.len(),
{
    if objects.len() == 0 {
        0
    } else {
        let rest = spec_max_id(objects.drop_last());
        if objects.last().spec_id() > rest {
            objects.last().spec_id()
        } else {
            rest
        }
    }
}

/// Whether `object` is a pen stroke with `id`.
pub open spec fn spec_is_pen(object: ToolObject, id: u64) -> bool {
    object matches ToolObject::Pen(s) && s.id == id
}

/// Whether `object` is a text box with `id`.
pub open spec fn spec_is_text(object: ToolObject, id: u64) -> bool {
    object matches ToolObject::Text(t) && t.id == id
}

/// Whether `objects` holds a pen stroke with `id`.
pub open spec fn spec_has_pen(objects: Seq<ToolObject>, id: u64) -> bool {
    exists|i: int| 0 <= i < objects.len() && spec_is_pen(#[trigger] objects[i], id)
}

/// Whether `objects` holds a text box with `id`.
pub open spec fn spec_has_text(objects: Seq<ToolObject>, id: u64) -> bool {
    exists|i: int| 0 <= i < objects.len() && spec_is_text(#[trigger] objects[i], id)
}

/// How far apart two numbers are.
pub open spec fn spec_distance(a: int, b: int) -> int {
    if a >= b {
        a - b
    } else {
        b - a
    }
}

/// Moving a stroke or an arrow that lies on the image shifts it by the delta nearest the one
/// asked for among those that keep it on the image: the span `[low, high]` stays within
/// `[0, axis_max]`, and no delta that keeps it there is closer to `delta`.
pub proof fn lemma_shift_is_nearest_on_image(delta: i32, low: i32, high: i32, axis_max: i32)
    requires
        0 <= low <= high <= axis_max,
    ensures
        spec_shift_defined(low, high, axis_max),
        0 <= low + spec_shift(delta, low, high, axis_max),
        high + spec_shift(delta, low, high, axis_max) <= axis_max,
        forall|d: int|
            0 <= low + d && high + d <= axis_max ==> spec_distance(delta as int, spec_shift(delta, low, high, axis_max) as int)
                <= #[trigger] spec_distance(delta as int, d),
{
}

/// Moving a box (a blur, a rectangle or a crop box) that lies on the image puts its corner
/// at the position nearest the one asked for among those that keep the whole box on the
/// image, on each axis.
pub proof fn lemma_box_move_is_nearest_on_image(
    x: i32,
    y: i32,
    width: u32,
    height: u32,
    dx: i32,
    dy: i32,
    image: ImageBounds,
)
    requires
        0 <= x,
        x + width <= image.width,
        0 <= y,
        y + height <= image.height,
    ensures
        ({
            let (nx, ny) = spec_move_box(x, y, width, height, dx, dy, image);
            &&& 0 <= nx && nx + width <= image.width
            &&& 0 <= ny && ny + height <= image.height
            &&& forall|p: int|
                0 <= p && p + width <= image.width ==> spec_distance(x + dx, nx as int) <= #[trigger] spec_distance(
                    x + dx,
                    p,
                )
            &&& forall|q: int|
                0 <= q && q + height <= image.height ==> spec_distance(y + dy, ny as int) <= #[trigger] spec_distance(
                    y + dy,
                    q,
                )
        }),
{
}

proof fn lemma_pen_bounds_upto(points: Seq<PenPoint>, n: int)
    requires
        1 <= n <= points.len(),
    ensures
        ({
            let (min_x, max_x, min_y, max_y) = spec_pen_bounds_upto(points, n);
            &&& forall|i: int| 0 <= i < n ==> min_x <= #[trigger] points[i].x <= max_x && min_y <= points[i].y <= max_y
            &&& exists|i: int| 0 <= i < n && #[trigger] points[i].x == min_x
            &&& exists|i: int| 0 <= i < n && #[trigger] points[i].x == max_x
            &&& exists|i: int| 0 <= i < n && #[trigger] points[i].y == min_y
            &&& exists|i: int| 0 <= i < n && #[trigger] points[i].y == max_y
        }),
    decreases n,
{
    if n > 1 {
        lemma_pen_bounds_upto(points, n - 1);
        let (a, b, c, d) = spec_pen_bounds_upto(points, n - 1);
        let p = points[n - 1];
        if p.x < a {
            assert(points[n - 1].x == spec_pen_bounds_upto(points, n).0);
        }
        if p.x > b {
            assert(points[n - 1].x == spec_pen_bounds_upto(points, n).1);
        }
        if p.y < c {
            assert(points[n - 1].y == spec_pen_bounds_upto(points, n).2);
        }
        if p.y > d {
            assert(points[n - 1].y == spec_pen_bounds_upto(points, n).3);
        }
    } else {
        assert(points[0].x == spec_pen_bounds_upto(points, 1).0);
        assert(points[0].y == spec_pen_bounds_upto(points, 1).2);
    }
}

/// Moving a stroke whose points all lie on a `w` by `h` image moves every point by the same
/// `(sx, sy)`; every point stays on the image, and on each axis no shift that keeps all the
/// points on the image is closer to the one asked for.
pub proof fn lemma_pen_move_is_nearest_on_image(b: PenStroke, a: PenStroke, dx: i32, dy: i32, w: i32, h: i32)
    requires
        spec_moved(ToolObject::Pen(b), ToolObject::Pen(a), dx, dy, w, h),
        b.points@.len() > 0,
        forall|i: int| 0 <= i < b.points@.len() ==> 0 <= #[trigger] b.points@[i].x < w && 0 <= b.points@[i].y < h,
    ensures
        ({
            let (min_x, max_x, min_y, max_y) = spec_pen_bounds(b.points@);
            let sx = spec_shift(dx, min_x, max_x, spec_axis_max(w)) as int;
            let sy = spec_shift(dy, min_y, max_y, spec_axis_max(h)) as int;
            &&& a.points@.len() == b.points@.len()
            &&& forall|i: int|
                0 <= i < a.points@.len() ==> #[trigger] a.points@[i] == (PenPoint {
                    x: (b.points@[i].x + sx) as i32,
                    y: (b.points@[i].y + sy) as i32,
                })
            &&& forall|i: int| 0 <= i < a.points@.len() ==> 0 <= #[trigger] a.points@[i].x < w && 0 <= a.points@[i].y < h
            &&& forall|d: int|
                (forall|i: int| 0 <= i < b.points@.len() ==> 0 <= #[trigger] b.points@[i].x + d < w) ==> spec_distance(
                    dx as int,
                    sx,
                ) <= #[trigger] spec_distance(dx as int, d)
            &&& forall|e: int|
                (forall|i: int| 0 <= i < b.points@.len() ==> 0 <= #[trigger] b.points@[i].y + e < h) ==> spec_distance(
                    dy as int,
                    sy,
                ) <= #[trigger] spec_distance(dy as int, e)
        }),
{
    let pts = b.points@;
    lemma_pen_bounds_upto(pts, pts.len() as int);
    let (min_x, max_x, min_y, max_y) = spec_pen_bounds(pts);
    let ax = spec_axis_max(w);
    let ay = spec_axis_max(h);
    assert(ax == w - 1 && ay == h - 1);
    let i0 = choose|i: int| 0 <= i < pts.len() && #[trigger] pts[i].x == min_x;
    let i1 = choose|i: int| 0 <= i < pts.len() && #[trigger] pts[i].x == max_x;
    let j0 = choose|i: int| 0 <= i < pts.len() && #[trigger] pts[i].y == min_y;
    let j1 = choose|i: int| 0 <= i < pts.len() && #[trigger] pts[i].y == max_y;
    assert(0 <= pts[i0].x < w);
    assert(0 <= pts[i1].x < w);
    assert(0 <= pts[j0].x < w && 0 <= pts[j0].y < h);
    assert(0 <= pts[j1].x < w && 0 <= pts[j1].y < h);
    lemma_shift_is_nearest_on_image(dx, min_x, max_x, ax);
    lemma_shift_is_nearest_on_image(dy, min_y, max_y, ay);
    let sx = spec_shift(dx, min_x, max_x, ax) as int;
    let sy = spec_shift(dy, min_y, max_y, ay) as int;
    assert forall|d: int|
        (forall|i: int| 0 <= i < pts.len() ==> 0 <= #[trigger] pts[i].x + d < w) implies spec_distance(dx as int, sx)
        <= #[trigger] spec_distance(dx as int, d) by {
        assert(0 <= pts[i0].x + d < w);
        assert(0 <= pts[i1].x + d < w);
    }
    assert forall|e: int|
        (forall|i: int| 0 <= i < pts.len() ==> 0 <= #[trigger] pts[i].y + e < h) implies spec_distance(dy as int, sy)
        <= #[trigger] spec_distance(dy as int, e) by {
        assert(0 <= pts[j0].y + e < h);
        assert(0 <= pts[j1].y + e < h);
    }
    assert forall|i: int| 0 <= i < a.points@.len() implies #[trigger] a.points@[i] == (PenPoint {
        x: (pts[i].x + sx) as i32,
        y: (pts[i].y + sy) as i32,
    }) && 0 <= a.points@[i].x < w && 0 <= a.points@[i].y < h by {
        assert(min_x <= pts[i].x <= max_x && min_y <= pts[i].y <= max_y);
    }
}

/// Moving an arrow whose ends lie on a `w` by `h` image moves both ends by the same
/// `(sx, sy)`; both stay on the image, and on each axis no shift that keeps both ends on
/// the image is closer to the one asked for.
pub proof fn lemma_arrow_move_is_nearest_on_image(b: ArrowElement, a: ArrowElement, dx: i32, dy: i32, w: i32, h: i32)
    requires
        spec_moved(ToolObject::Arrow(b), ToolObject::Arrow(a), dx, dy, w, h),
        0 <= b.start.x < w,
        0 <= b.end.x < w,
        0 <= b.start.y < h,
        0 <= b.end.y < h,
    ensures
        ({
            let sx = spec_shift(
                dx,
                spec_min(b.start.x as int, b.end.x as int) as i32,
                spec_max(b.start.x as int, b.end.x as int) as i32,
                spec_axis_max(w),
            ) as int;
            let sy = spec_shift(
                dy,
                spec_min(b.start.y as int, b.end.y as int) as i32,
                spec_max(b.start.y as int, b.end.y as int) as i32,
                spec_axis_max(h),
            ) as int;
            &&& a.start.x == b.start.x + sx && a.end.x == b.end.x + sx
            &&& a.start.y == b.start.y + sy && a.end.y == b.end.y + sy
            &&& 0 <= a.start.x < w && 0 <= a.end.x < w && 0 <= a.start.y < h && 0 <= a.end.y < h
            &&& forall|d: int|
                0 <= b.start.x + d < w && 0 <= b.end.x + d < w ==> spec_distance(dx as int, sx) <= #[trigger] spec_distance(
                    dx as int,
                    d,
                )
            &&& forall|e: int|
                0 <= b.start.y + e < h && 0 <= b.end.y + e < h ==> spec_distance(dy as int, sy) <= #[trigger] spec_distance(
                    dy as int,
                    e,
                )
        }),
{
    let ax = spec_axis_max(w);
    let ay = spec_axis_max(h);
    let lo_x = spec_min(b.start.x as int, b.end.x as int) as i32;
    let hi_x = spec_max(b.start.x as int, b.end.x as int) as i32;
    let lo_y = spec_min(b.start.y as int, b.end.y as int) as i32;
    let hi_y = spec_max(b.start.y as int, b.end.y as int) as i32;
    lemma_shift_is_nearest_on_image(dx, lo_x, hi_x, ax);
    lemma_shift_is_nearest_on_image(dy, lo_y, hi_y, ay);
    let sx = spec_shift(dx, lo_x, hi_x, ax) as int;
    let sy = spec_shift(dy, lo_y, hi_y, ay) as int;
    assert(a.start.x == b.start.x + sx && a.end.x == b.end.x + sx);
    assert(a.start.y == b.start.y + sy && a.end.y == b.end.y + sy);
}

/// Moving a text box whose anchor lies on a `w` by `h` image puts the anchor at the point of
/// the image nearest the one asked for, on each axis.
pub proof fn lemma_text_move_is_nearest_on_image(b: TextElement, a: TextElement, dx: i32, dy: i32, w: i32, h: i32)
    requires
        spec_moved(ToolObject::Text(b), ToolObject::Text(a), dx, dy, w, h),
        0 <= b.x < w,
        0 <= b.y < h,
    ensures
        0 <= a.x < w,
        0 <= a.y < h,
        forall|p: int| 0 <= p < w ==> spec_distance(b.x + dx, a.x as int) <= #[trigger] spec_distance(b.x + dx, p),
        forall|q: int| 0 <= q < h ==> spec_distance(b.y + dy, a.y as int) <= #[trigger] spec_distance(b.y + dy, q),
{
}

proof fn lemma_max_id_bounds(objects: Seq<ToolObject>)
    ensures
        forall|i: int| 0 <= i < objects.len() ==> #[trigger] objects[i].spec_id() <= spec_max_id(objects),
    decreases objects.len(),
{
    if objects.len() > 0 {
        lemma_max_id_bounds(objects.drop_last());
        assert forall|i: int| 0 <= i < objects.len() implies #[trigger] objects[i].spec_id() <= spec_max_id(objects) by {
            if i < objects.len() - 1 {
                assert(objects.drop_last()[i] == objects[i]);
            }
        }
    }
}

impl EditorTools {
    /// Gives keyboard focus to the text box with `id` and puts its cursor at the end;
    /// `false` when the object with that id is not a text box.
    pub fn focus_text_box(&mut self, id: u64) -> (focused: bool)
        ensures
            focused == (spec_find_kind(old(self).spec_objects(), id, ToolKind::Text) is Some),
            !focused ==> *final(self) == *old(self),
            focused ==> {
                let i = spec_kind_index_of(old(self).spec_objects(), id, ToolKind::Text);
                &&& spec_unchanged_except(old(self).spec_objects(), final(self).spec_objects(), i)
                &&& old(self).spec_objects()[i] matches ToolObject::Text(before)
                &&& final(self).spec_objects()[i] == ToolObject::Text(
                    TextElement { cursor_chars: before.content@.len() as usize, ..before },
                )
                &&& final(self).spec_active_text_box() == Some(id)
                &&& final(self).spec_active_pen_stroke() == old(self).spec_active_pen_stroke()
                &&& final(self).spec_next_id() == old(self).spec_next_id()
                &&& final(self).spec_same_settings(old(self))
            },
    {
        proof {
            lemma_kind_index_of(self.objects@, id, ToolKind::Text);
        }
        let index = match self.kind_index_of(id, ToolKind::Text) {
            Some(i) => i,
            None => return false,
        };
        match &self.objects[index] {
            ToolObject::Text(_) => {},
            _ => return false,
        }
        let mut object = self.objects.remove(index);
        match &mut object {
            ToolObject::Text(text) => text.move_cursor_to_end(),
            _ => {},
        }
        self.objects.insert(index, object);
        self.active_text_box = Some(id);
        proof {
            assert forall|j: int| 0 <= j < old(self).objects@.len() && j != index implies #[trigger] self.objects@[j] == old(self).objects@[j] by {
            }
        }
        true
    }

    /// Moves the object with `id` by `(dx, dy)` on an image of the given size, as
    /// `spec_moved` describes. Strokes and arrows must fit on the image to be moved.
    pub fn move_object_by(
        &mut self,
        id: u64,
        dx: i32,
        dy: i32,
        image_width: i32,
        image_height: i32,
    ) -> (result: Result<(), ToolError>)
        requires
            spec_find(old(self).spec_objects(), id) matches Some(o) ==> spec_move_defined(
                o,
                image_width,
                image_height,
            ),
        ensures
            result is Err <==> spec_find(old(self).spec_objects(), id) is None,
            result is Err ==> result == Err::<(), ToolError>(ToolError::ObjectNotFound)
                && *final(self) == *old(self),
            result is Ok ==> {
                let i = spec_index_of(old(self).spec_objects(), id);
                &&& spec_unchanged_except(old(self).spec_objects(), final(self).spec_objects(), i)
                &&& spec_moved(
                    old(self).spec_objects()[i],
                    final(self).spec_objects()[i],
                    dx,
                    dy,
                    image_width,
                    image_height,
                )
                &&& final(self).spec_next_id() == old(self).spec_next_id()
                &&& final(self).spec_active_pen_stroke() == old(self).spec_active_pen_stroke()
                &&& final(self).spec_active_text_box() == old(self).spec_active_text_box()
                &&& final(self).spec_same_settings(old(self))
            },
    {
        proof {
            lemma_index_of(self.objects@, id);
        }
        let index = match self.index_of(id) {
            Some(i) => i,
            None => return Err(ToolError::ObjectNotFound),
        };
        let mut object = self.objects.remove(index);
        move_one(&mut object, dx, dy, image_width, image_height);
        self.objects.insert(index, object);
        proof {
            assert forall|j: int| 0 <= j < old(self).objects@.len() && j != index implies #[trigger] self.objects@[j] == old(self).objects@[j] by {
            }
        }
        Ok(())
    }

    /// Gives the rectangle with `id` the given bounds, clipped to the image.
    pub fn resize_rectangle(&mut self, id: u64, bounds: ToolBounds, image_bounds: ImageBounds) -> (result: Result<(), ToolError>)
        ensures
            (bounds.width == 0 || bounds.height == 0) ==> result == Err::<(), ToolError>(
                ToolError::InvalidRectangleGeometry,
            ),
            !(bounds.width == 0 || bounds.height == 0) ==> (result is Ok <==> spec_find_kind(
                old(self).spec_objects(),
                id,
                ToolKind::Rectangle,
            ) is Some),
            !(bounds.width == 0 || bounds.height == 0) && result is Err ==> result == Err::<
                (),
                ToolError,
            >(ToolError::ObjectNotFound),
            result is Err ==> *final(self) == *old(self),
            result is Ok ==> {
                let i = spec_kind_index_of(old(self).spec_objects(), id, ToolKind::Rectangle);
                let b = spec_clamp_bounds(bounds, image_bounds);
                &&& spec_unchanged_except(old(self).spec_objects(), final(self).spec_objects(), i)
                &&& old(self).spec_objects()[i] matches ToolObject::Rectangle(before)
                &&& final(self).spec_objects()[i] == ToolObject::Rectangle(
                    RectangleElement { x: b.x, y: b.y, width: b.width, height: b.height, ..before },
                )
                &&& final(self).spec_next_id() == old(self).spec_next_id()
                &&& final(self).spec_active_pen_stroke() == old(self).spec_active_pen_stroke()
                &&& final(self).spec_active_text_box() == old(self).spec_active_text_box()
                &&& final(self).spec_same_settings(old(self))
            },
    {
        if bounds.width == 0 || bounds.height == 0 {
            return Err(ToolError::InvalidRectangleGeometry);
        }
        proof {
            lemma_kind_index_of(self.objects@, id, ToolKind::Rectangle);
        }
        let index = match self.kind_index_of(id, ToolKind::Rectangle) {
            Some(i) => i,
            None => return Err(ToolError::ObjectNotFound),
        };
        let bounded = clamp_bounds_to_image(bounds, image_bounds);
        match &self.objects[index] {
            ToolObject::Rectangle(rectangle) => {
                let updated = RectangleElement {
                    x: bounded.x,
                    y: bounded.y,
                    width: bounded.width,
                    height: bounded.height,
                    ..*rectangle
                };
                self.objects.set(index, ToolObject::Rectangle(updated));
                Ok(())
            },
            _ => Err(ToolError::ObjectNotFound),
        }
    }

    /// Gives the blur with `id` the given bounds, clipped to the image; its anchor follows.
    pub fn resize_blur(&mut self, id: u64, bounds: ToolBounds, image_bounds: ImageBounds) -> (result: Result<(), ToolError>)
        ensures
            (bounds.width == 0 || bounds.height == 0) ==> result == Err::<(), ToolError>(
                ToolError::InvalidBlurRegion,
            ),
            !(bounds.width == 0 || bounds.height == 0) ==> (result is Ok <==> spec_find_kind(
                old(self).spec_objects(),
                id,
                ToolKind::Blur,
            ) is Some),
            !(bounds.width == 0 || bounds.height == 0) && result is Err ==> result == Err::<
                (),
                ToolError,
            >(ToolError::ObjectNotFound),
            result is Err ==> *final(self) == *old(self),
            result is Ok ==> {
                let i = spec_kind_index_of(old(self).spec_objects(), id, ToolKind::Blur);
                let b = spec_clamp_bounds(bounds, image_bounds);
                &&& spec_unchanged_except(old(self).spec_objects(), final(self).spec_objects(), i)
                &&& old(self).spec_objects()[i] matches ToolObject::Blur(before)
                &&& final(self).spec_objects()[i] == ToolObject::Blur(
                    BlurElement {
                        region: BlurRegion { x: b.x, y: b.y, width: b.width, height: b.height },
                        anchor: ToolPoint { x: b.x, y: b.y },
                        ..before
                    },
                )
                &&& final(self).spec_next_id() == old(self).spec_next_id()
                &&& final(self).spec_active_pen_stroke() == old(self).spec_active_pen_stroke()
                &&& final(self).spec_active_text_box() == old(self).spec_active_text_box()
                &&& final(self).spec_same_settings(old(self))
            },
    {
        if bounds.width == 0 || bounds.height == 0 {
            return Err(ToolError::InvalidBlurRegion);
        }
        proof {
            lemma_kind_index_of(self.objects@, id, ToolKind::Blur);
        }
        let index = match self.kind_index_of(id, ToolKind::Blur) {
            Some(i) => i,
            None => return Err(ToolError::ObjectNotFound),
        };
        let bounded = clamp_bounds_to_image(bounds, image_bounds);
        match &self.objects[index] {
            ToolObject::Blur(blur) => {
                let updated = BlurElement {
                    region: BlurRegion::new(bounded.x, bounded.y, bounded.width, bounded.height),
                    anchor: ToolPoint::new(bounded.x, bounded.y),
                    ..*blur
                };
                self.objects.set(index, ToolObject::Blur(updated));
                Ok(())
            },
            _ => Err(ToolError::ObjectNotFound),
        }
    }

    /// Gives the crop box with `id` the given bounds, clipped to the image. Bounds below the
    /// minimum crop size are refused, before and after clipping.
    pub fn resize_crop(&mut self, id: u64, bounds: ToolBounds, image_bounds: ImageBounds) -> (result: Result<(), ToolError>)
        ensures
            ({
                let b = spec_clamp_bounds(bounds, image_bounds);
                (bounds.width < CROP_MIN_SIZE || bounds.height < CROP_MIN_SIZE) || (spec_find_kind(
                    old(self).spec_objects(),
                    id,
                    ToolKind::Crop,
                ) is Some && (b.width < CROP_MIN_SIZE || b.height
                    < CROP_MIN_SIZE))
            }) <==> result == Err::<(), ToolError>(ToolError::InvalidCropGeometry),
            !(bounds.width < CROP_MIN_SIZE || bounds.height < CROP_MIN_SIZE) && !(spec_find_kind(
                old(self).spec_objects(),
                id,
                ToolKind::Crop,
            ) is Some) ==> result == Err::<(), ToolError>(
                ToolError::ObjectNotFound,
            ),
            result is Ok <==> ({
                let b = spec_clamp_bounds(bounds, image_bounds);
                &&& spec_find_kind(old(self).spec_objects(), id, ToolKind::Crop) is Some
                &&& !(bounds.width < CROP_MIN_SIZE || bounds.height < CROP_MIN_SIZE)
                &&& !(b.width < CROP_MIN_SIZE || b.height < CROP_MIN_SIZE)
            }),
            result is Err ==> *final(self) == *old(self),
            result is Ok ==> {
                let i = spec_kind_index_of(old(self).spec_objects(), id, ToolKind::Crop);
                let b = spec_clamp_bounds(bounds, image_bounds);
                &&& spec_unchanged_except(old(self).spec_objects(), final(self).spec_objects(), i)
                &&& old(self).spec_objects()[i] matches ToolObject::Crop(before)
                &&& final(self).spec_objects()[i] == ToolObject::Crop(
                    CropElement { x: b.x, y: b.y, width: b.width, height: b.height, ..before },
                )
                &&& final(self).spec_next_id() == old(self).spec_next_id()
                &&& final(self).spec_active_pen_stroke() == old(self).spec_active_pen_stroke()
                &&& final(self).spec_active_text_box() == old(self).spec_active_text_box()
                &&& final(self).spec_same_settings(old(self))
            },
    {
        if bounds.width < CROP_MIN_SIZE || bounds.height < CROP_MIN_SIZE {
            return Err(ToolError::InvalidCropGeometry);
        }
        proof {
            lemma_kind_index_of(self.objects@, id, ToolKind::Crop);
        }
        let index = match self.kind_index_of(id, ToolKind::Crop) {
            Some(i) => i,
            None => return Err(ToolError::ObjectNotFound),
        };
        let bounded = clamp_bounds_to_image(bounds, image_bounds);
        match &self.objects[index] {
            ToolObject::Crop(crop) => {
                if bounded.width < CROP_MIN_SIZE || bounded.height < CROP_MIN_SIZE {
                    return Err(ToolError::InvalidCropGeometry);
                }
                let updated = CropElement {
                    x: bounded.x,
                    y: bounded.y,
                    width: bounded.width,
                    height: bounded.height,
                    ..*crop
                };
                self.objects.set(index, ToolObject::Crop(updated));
                Ok(())
            },
            _ => Err(ToolError::ObjectNotFound),
        }
    }

    /// Ends the pen stroke or text focus that `object` held.
    fn clear_active_state_for_object(&mut self, object: &ToolObject)
        ensures
            final(self).spec_objects() == old(self).spec_objects(),
            final(self).spec_next_id() == old(self).spec_next_id(),
            final(self).spec_same_settings(old(self)),
            final(self).spec_active_pen_stroke() == (match object {
                ToolObject::Pen(s) => if old(self).spec_active_pen_stroke() == Some(s.id) {
                    None
                } else {
                    old(self).spec_active_pen_stroke()
                },
                _ => old(self).spec_active_pen_stroke(),
            }),
            final(self).spec_active_text_box() == (match object {
                ToolObject::Text(t) => if old(self).spec_active_text_box() == Some(t.id) {
                    None
                } else {
                    old(self).spec_active_text_box()
                },
                _ => old(self).spec_active_text_box(),
            }),
    {
        match object {
            ToolObject::Pen(stroke) => {
                if self.active_pen_stroke == Some(stroke.id) {
                    self.active_pen_stroke = None;
                }
            },
            ToolObject::Text(text) => {
                if self.active_text_box == Some(text.id) {
                    self.active_text_box = None;
                }
            },
            _ => {},
        }
    }

    /// Takes the object with `id` off the canvas and returns it; a stroke being drawn or a
    /// focused text box stops being active.
    pub fn remove_object(&mut self, id: u64) -> (removed: Option<ToolObject>)
        ensures
            removed is None <==> spec_find(old(self).spec_objects(), id) is None,
            removed is None ==> *final(self) == *old(self),
            removed is Some ==> {
                let i = spec_index_of(old(self).spec_objects(), id);
                &&& removed == Some(old(self).spec_objects()[i])
                &&& final(self).spec_objects() == old(self).spec_objects().remove(i)
                &&& final(self).spec_next_id() == old(self).spec_next_id()
                &&& final(self).spec_same_settings(old(self))
                &&& final(self).spec_active_pen_stroke() == (match old(self).spec_objects()[i] {
                    ToolObject::Pen(s) => if old(self).spec_active_pen_stroke() == Some(s.id) {
                        None
                    } else {
                        old(self).spec_active_pen_stroke()
                    },
                    _ => old(self).spec_active_pen_stroke(),
                })
                &&& final(self).spec_active_text_box() == (match old(self).spec_objects()[i] {
                    ToolObject::Text(t) => if old(self).spec_active_text_box() == Some(t.id) {
                        None
                    } else {
                        old(self).spec_active_text_box()
                    },
                    _ => old(self).spec_active_text_box(),
                })
            },
    {
        proof {
            lemma_index_of(self.objects@, id);
        }
        let index = match self.index_of(id) {
            Some(i) => i,
            None => return None,
        };
        let object = self.objects.remove(index);
        self.clear_active_state_for_object(&object);
        Some(object)
    }

    /// Puts `objects` on the canvas in place of the current ones (undo and redo). The id
    /// counter restarts after the largest id; a stroke or text focus whose object is gone
    /// stops being active.
    pub fn replace_objects(&mut self, objects: Vec<ToolObject>)
        ensures
            spec_replaced(*final(self), *old(self), objects@),
    {
        let mut max_id: u64 = 0;
        let mut has_pen = false;
        let mut has_text = false;
        let mut i: usize = 0;
        while i < objects.len()
            invariant
                0 <= i <= objects.len(),
                max_id == spec_max_id(objects@.subrange(0, i as int)),
                has_pen == (self.active_pen_stroke matches Some(id) && spec_has_pen(
                    objects@.subrange(0, i as int),
                    id,
                )),
                has_text == (self.active_text_box matches Some(id) && spec_has_text(
                    objects@.subrange(0, i as int),
                    id,
                )),
            decreases objects.len() - i,
        {
            let ghost prefix = objects@.subrange(0, i as int);
            let ghost next = objects@.subrange(0, i + 1);
            assert(next.drop_last() =~= prefix);
            assert(next.last() == objects@[i as int]);
            let object = &objects[i];
            let id = object.id();
            if id > max_id {
                max_id = id;
            }
            match object {
                ToolObject::Pen(stroke) => {
                    if self.active_pen_stroke == Some(stroke.id) {
                        has_pen = true;
                    }
                },
                ToolObject::Text(text) => {
                    if self.active_text_box == Some(text.id) {
                        has_text = true;
                    }
                },
                _ => {},
            }
            proof {
                assert forall|k: int| 0 <= k < prefix.len() implies #[trigger] next[k] == prefix[k] by {}
                match self.active_pen_stroke {
                    Some(pid) => {
                        if spec_has_pen(next, pid) {
                            let k = choose|k: int| 0 <= k < next.len() && spec_is_pen(#[trigger] next[k], pid);
                            if k < prefix.len() {
                                assert(prefix[k] == next[k]);
                            }
                        }
                        if spec_has_pen(prefix, pid) {
                            let k = choose|k: int| 0 <= k < prefix.len() && spec_is_pen(#[trigger] prefix[k], pid);
                            assert(next[k] == prefix[k]);
                        }
                    },
                    None => {},
                }
                match self.active_text_box {
                    Some(tid) => {
                        if spec_has_text(next, tid) {
                            let k = choose|k: int| 0 <= k < next.len() && spec_is_text(#[trigger] next[k], tid);
                            if k < prefix.len() {
                                assert(prefix[k] == next[k]);
                            }
                        }
                        if spec_has_text(prefix, tid) {
                            let k = choose|k: int| 0 <= k < prefix.len() && spec_is_text(#[trigger] prefix[k], tid);
                            assert(next[k] == prefix[k]);
                        }
                    },
                    None => {},
                }
            }
            i = i + 1;
        }
        assert(objects@.subrange(0, i as int) =~= objects@);
        self.objects = objects;
        self.next_id = if max_id == u64::MAX { u64::MAX } else { max_id + 1 };
        if !has_pen {
            self.active_pen_stroke = None;
        }
        if !has_text {
            self.active_text_box = None;
        }
        proof {
            lemma_max_id_bounds(self.objects@);
        }
    }
}

impl EditorTools {
    /// Puts `objects` on the canvas as `replace_objects` does and hands back the objects that
    /// were there.
    pub fn swap_objects(&mut self, objects: Vec<ToolObject>) -> (previous: Vec<ToolObject>)
        ensures
            previous@ == old(self).spec_objects(),
            spec_replaced(*final(self), *old(self), objects@),
    {
        let mut previous: Vec<ToolObject> = Vec::new();
        core::mem::swap(&mut previous, &mut self.objects);
        self.replace_objects(objects);
        previous
    }
}

/// Whether `after` is `before` with `objects` put on the canvas: the id counter restarts
/// after the largest id, an active stroke or text box stays active only where its object is
/// among `objects`, and the settings are kept.
pub open spec fn spec_replaced(after: EditorTools, before: EditorTools, objects: Seq<ToolObject>) -> bool {
    &&& after.spec_objects() == objects
    &&& after.spec_next_id() == (if spec_max_id(objects) == u64::MAX {
        u64::MAX
    } else {
        (spec_max_id(objects) + 1) as u64
    })
    &&& after.spec_active_pen_stroke() == (match before.spec_active_pen_stroke() {
        Some(id) => if spec_has_pen(objects, id) {
            Some(id)
        } else {
            None
        },
        None => None,
    })
    &&& after.spec_active_text_box() == (match before.spec_active_text_box() {
        Some(id) => if spec_has_text(objects, id) {
            Some(id)
        } else {
            None
        },
        None => None,
    })
    &&& after.spec_same_settings(&before)
    &&& (after.spec_ids_below_next() || after.spec_next_id() == u64::MAX)
}

} // verus!
