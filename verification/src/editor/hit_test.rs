//! Which placed object lies under the pointer or inside a drag box, and the order in which
//! objects are drawn and picked: blur regions go under everything else, and among the rest
//! the object placed last is on top.
//!
//! A text box's size depends on the font renderer, so callers pass one measured
//! `(width, height)` per placed object, in the order of `EditorTools::objects`; the entry is
//! read only for text boxes.

use vstd::prelude::*;

use crate::arith::{sat_add_i32, sat_sub_i32, spec_sat_i32};
use crate::geometry::{ToolBounds, ToolPoint};
use super::interaction::{
    bounds_intersect, normalize_tool_box, point_in_bounds, spec_bounds_intersect,
    spec_drag_spans_fit, spec_normalize_tool_box, spec_point_in_bounds,
};
use super::tools::selection::{pen_point_bounds, spec_pen_bounds};
use super::tools::{EditorTools, ToolObject};

verus! {

/// Extra pixels around an object's box that still count as a hit.
pub const HIT_PADDING: i32 = 4;

/// The length of the span `[min, max]` counted in pixels, `max - min + 1`, saturating;
/// none if that is negative.
pub open spec fn spec_span_len(min: i32, max: i32) -> Option<u32> {
    let len = spec_sat_i32(spec_sat_i32(max - min) + 1);
    if len < 0 {
        None
    } else {
        Some(len as u32)
    }
}

fn span_len(min: i32, max: i32) -> (r: Option<u32>)
    ensures
        r == spec_span_len(min, max),
{
    let len = sat_add_i32(sat_sub_i32(max, min), 1);
    if len < 0 {
        None
    } else {
        Some(len as u32)
    }
}

/// The box `(x, y, width, height)` an object covers; a text box takes `text_size` as its
/// measured size. Strokes and arrows cover their points' extent, edges included.
pub open spec fn spec_object_bounds(object: ToolObject, text_size: (u32, u32)) -> Option<(i32, i32, u32, u32)> {
    match object {
        ToolObject::Blur(blur) => Some((blur.region.x, blur.region.y, blur.region.width, blur.region.height)),
        ToolObject::Pen(stroke) => {
            if stroke.points@.len() == 0 {
                None
            } else {
                let (min_x, max_x, min_y, max_y) = spec_pen_bounds(stroke.points@);
                match (spec_span_len(min_x, max_x), spec_span_len(min_y, max_y)) {
                    (Some(w), Some(h)) => Some((min_x, min_y, w, h)),
                    _ => None,
                }
            }
        },
        ToolObject::Arrow(arrow) => {
            let min_x = if arrow.start.x <= arrow.end.x { arrow.start.x } else { arrow.end.x };
            let max_x = if arrow.start.x >= arrow.end.x { arrow.start.x } else { arrow.end.x };
            let min_y = if arrow.start.y <= arrow.end.y { arrow.start.y } else { arrow.end.y };
            let max_y = if arrow.start.y >= arrow.end.y { arrow.start.y } else { arrow.end.y };
            match (spec_span_len(min_x, max_x), spec_span_len(min_y, max_y)) {
                (Some(w), Some(h)) => Some((min_x, min_y, w, h)),
                _ => None,
            }
        },
        ToolObject::Rectangle(r) => Some((r.x, r.y, r.width, r.height)),
        ToolObject::Crop(c) => Some((c.x, c.y, c.width, c.height)),
        ToolObject::Text(t) => Some((t.x, t.y, text_size.0, text_size.1)),
    }
}

/// The box an object covers, `(x, y, width, height)`.
pub fn object_bounds(object: &ToolObject, text_size: (u32, u32)) -> (r: Option<(i32, i32, u32, u32)>)
    ensures
        r == spec_object_bounds(*object, text_size),
{
    match object {
        ToolObject::Blur(blur) => Some((blur.region.x, blur.region.y, blur.region.width, blur.region.height)),
        ToolObject::Pen(stroke) => {
            let (min_x, max_x, min_y, max_y) = match pen_point_bounds(&stroke.points) {
                Some(b) => b,
                None => return None,
            };
            match (span_len(min_x, max_x), span_len(min_y, max_y)) {
                (Some(w), Some(h)) => Some((min_x, min_y, w, h)),
                _ => None,
            }
        },
        ToolObject::Arrow(arrow) => {
            let min_x = if arrow.start.x <= arrow.end.x { arrow.start.x } else { arrow.end.x };
            let max_x = if arrow.start.x >= arrow.end.x { arrow.start.x } else { arrow.end.x };
            let min_y = if arrow.start.y <= arrow.end.y { arrow.start.y } else { arrow.end.y };
            let max_y = if arrow.start.y >= arrow.end.y { arrow.start.y } else { arrow.end.y };
            match (span_len(min_x, max_x), span_len(min_y, max_y)) {
                (Some(w), Some(h)) => Some((min_x, min_y, w, h)),
                _ => None,
            }
        },
        ToolObject::Rectangle(r) => Some((r.x, r.y, r.width, r.height)),
        ToolObject::Crop(c) => Some((c.x, c.y, c.width, c.height)),
        ToolObject::Text(t) => Some((t.x, t.y, text_size.0, text_size.1)),
    }
}

/// Whether the object is a blur region.
pub open spec fn spec_is_blur(object: ToolObject) -> bool {
    object is Blur
}

pub fn object_is_blur(object: &ToolObject) -> (b: bool)
    ensures
        b == spec_is_blur(*object),
{
    match object {
        ToolObject::Blur(_) => true,
        _ => false,
    }
}

/// Positions among the first `n` objects whose blur-ness is `blur`, in increasing order.
pub open spec fn spec_ascending(objects: Seq<ToolObject>, blur: bool, n: int) -> Seq<usize>
    decreases n,
{
    if n <= 0 {
        Seq::empty()
    } else {
        let prev = spec_ascending(objects, blur, n - 1);
        if spec_is_blur(objects[n - 1]) == blur {
            prev.push((n - 1) as usize)
        } else {
            prev
        }
    }
}

/// Positions `k..` of the objects whose blur-ness is `blur`, in decreasing order.
pub open spec fn spec_descending(objects: Seq<ToolObject>, blur: bool, k: int) -> Seq<usize>
    decreases objects.len() - k,
{
    if k >= objects.len() || k < 0 {
        Seq::empty()
    } else {
        let above = spec_descending(objects, blur, k + 1);
        if spec_is_blur(objects[k]) == blur {
            above.push(k as usize)
        } else {
            above
        }
    }
}

/// Drawing order: blur regions first, then everything else, each in placement order.
pub open spec fn spec_draw_order(objects: Seq<ToolObject>) -> Seq<usize> {
    spec_ascending(objects, true, objects.len() as int) + spec_ascending(objects, false, objects.len() as int)
}

/// Picking order: everything but blur regions from the last placed down, then blur
/// regions from the last placed down.
pub open spec fn spec_hit_test_order(objects: Seq<ToolObject>) -> Seq<usize> {
    spec_descending(objects, false, 0) + spec_descending(objects, true, 0)
}

/// Every position listed by `spec_ascending` is a position of the objects.
pub proof fn lemma_ascending_in_range(objects: Seq<ToolObject>, blur: bool, n: int, j: int)
    requires
        0 <= n <= objects.len() <= usize::MAX,
        0 <= j < spec_ascending(objects, blur, n).len(),
    ensures
        spec_ascending(objects, blur, n)[j] < n,
    decreases n,
{
    if n > 0 {
        let prev = spec_ascending(objects, blur, n - 1);
        if j < prev.len() {
            lemma_ascending_in_range(objects, blur, n - 1, j);
        }
    }
}

/// Every position listed by `spec_descending` is a position of the objects.
pub proof fn lemma_descending_in_range(objects: Seq<ToolObject>, blur: bool, k: int, j: int)
    requires
        0 <= k,
        objects.len() <= usize::MAX,
        0 <= j < spec_descending(objects, blur, k).len(),
    ensures
        k <= spec_descending(objects, blur, k)[j] < objects.len(),
    decreases objects.len() - k,
{
    if k < objects.len() {
        let above = spec_descending(objects, blur, k + 1);
        if j < above.len() {
            lemma_descending_in_range(objects, blur, k + 1, j);
        }
    }
}

/// Positions of the objects in drawing order.
pub fn objects_in_draw_order(tools: &EditorTools) -> (order: Vec<usize>)
    ensures
        order@ == spec_draw_order(tools.spec_objects()),
{
    let objects = tools.objects();
    let ghost objs = objects@;
    let mut order: Vec<usize> = Vec::new();
    let mut i: usize = 0;
    while i < objects.len()
        invariant
            objs == objects@,
            0 <= i <= objects.len(),
            order@ == spec_ascending(objs, true, i as int),
        decreases objects.len() - i,
    {
        if object_is_blur(&objects[i]) {
            order.push(i);
        }
        i = i + 1;
    }
    let mut i: usize = 0;
    while i < objects.len()
        invariant
            objs == objects@,
            0 <= i <= objects.len(),
            order@ == spec_ascending(objs, true, objs.len() as int) + spec_ascending(objs, false, i as int),
        decreases objects.len() - i,
    {
        let ghost before = order@;
        if !object_is_blur(&objects[i]) {
            order.push(i);
            assert(order@ =~= spec_ascending(objs, true, objs.len() as int) + spec_ascending(objs, false, i + 1));
        } else {
            assert(order@ =~= spec_ascending(objs, true, objs.len() as int) + spec_ascending(objs, false, i + 1));
        }
        i = i + 1;
    }
    order
}

/// Positions of the objects in picking order.
pub fn objects_in_hit_test_order(tools: &EditorTools) -> (order: Vec<usize>)
    ensures
        order@ == spec_hit_test_order(tools.spec_objects()),
{
    let objects = tools.objects();
    let ghost objs = objects@;
    let mut order: Vec<usize> = Vec::new();
    let mut i: usize = objects.len();
    while i > 0
        invariant
            objs == objects@,
            0 <= i <= objects.len(),
            order@ == spec_descending(objs, false, i as int),
        decreases i,
    {
        i = i - 1;
        if !object_is_blur(&objects[i]) {
            order.push(i);
        }
    }
    let mut i: usize = objects.len();
    while i > 0
        invariant
            objs == objects@,
            0 <= i <= objects.len(),
            order@ == spec_descending(objs, false, 0) + spec_descending(objs, true, i as int),
        decreases i,
    {
        i = i - 1;
        if object_is_blur(&objects[i]) {
            order.push(i);
        }
        assert(order@ =~= spec_descending(objs, false, 0) + spec_descending(objs, true, i as int));
    }
    order
}

/// Whether `point` hits the object at position `i`: it lies in the object's box grown by
/// the hit padding; with `text_only`, only text boxes count.
pub open spec fn spec_hits(
    objects: Seq<ToolObject>,
    sizes: Seq<(u32, u32)>,
    i: int,
    point: ToolPoint,
    text_only: bool,
) -> bool {
    &&& (!text_only || objects[i] is Text)
    &&& match spec_object_bounds(objects[i], sizes[i]) {
        Some((x, y, w, h)) => spec_point_in_bounds(point, x, y, w, h, HIT_PADDING),
        None => false,
    }
}

/// The id of the first object among positions `order[..n]` that `point` hits.
pub open spec fn spec_first_hit(
    objects: Seq<ToolObject>,
    sizes: Seq<(u32, u32)>,
    order: Seq<usize>,
    point: ToolPoint,
    text_only: bool,
    n: int,
) -> Option<u64>
    decreases n,
{
    if n <= 0 {
        None
    } else {
        match spec_first_hit(objects, sizes, order, point, text_only, n - 1) {
            Some(id) => Some(id),
            None => if spec_hits(objects, sizes, order[n - 1] as int, point, text_only) {
                Some(objects[order[n - 1] as int].spec_id())
            } else {
                None
            },
        }
    }
}

/// Once a hit is found, looking further does not change it.
pub proof fn lemma_first_hit_settles(
    objects: Seq<ToolObject>,
    sizes: Seq<(u32, u32)>,
    order: Seq<usize>,
    point: ToolPoint,
    text_only: bool,
    n: int,
    m: int,
)
    requires
        0 <= n <= m,
        spec_first_hit(objects, sizes, order, point, text_only, n) is Some,
    ensures
        spec_first_hit(objects, sizes, order, point, text_only, m) == spec_first_hit(
            objects,
            sizes,
            order,
            point,
            text_only,
            n,
        ),
    decreases m,
{
    if m > n {
        lemma_first_hit_settles(objects, sizes, order, point, text_only, n, m - 1);
    }
}

fn first_hit(
    objects: &[ToolObject],
    sizes: &Vec<(u32, u32)>,
    order: &Vec<usize>,
    point: ToolPoint,
    text_only: bool,
) -> (r: Option<u64>)
    requires
        sizes@.len() == objects@.len(),
        forall|j: int| 0 <= j < order@.len() ==> #[trigger] order@[j] < objects@.len(),
    ensures
        r == spec_first_hit(objects@, sizes@, order@, point, text_only, order@.len() as int),
{
    let mut i: usize = 0;
    while i < order.len()
        invariant
            0 <= i <= order@.len(),
            sizes@.len() == objects@.len(),
            forall|j: int| 0 <= j < order@.len() ==> #[trigger] order@[j] < objects@.len(),
            spec_first_hit(objects@, sizes@, order@, point, text_only, i as int) is None,
        decreases order.len() - i,
    {
        let index = order[i];
        let object = &objects[index];
        let candidate = match object {
            ToolObject::Text(_) => true,
            _ => !text_only,
        };
        if candidate {
            if let Some((x, y, width, height)) = object_bounds(object, sizes[index]) {
                if point_in_bounds(point, x, y, width, height, HIT_PADDING) {
                    proof {
                        lemma_first_hit_settles(
                            objects@,
                            sizes@,
                            order@,
                            point,
                            text_only,
                            i + 1,
                            order@.len() as int,
                        );
                    }
                    return Some(object.id());
                }
            }
        }
        i = i + 1;
    }
    None
}

/// The picking order lists positions of the objects.
proof fn lemma_hit_test_order_in_range(objects: Seq<ToolObject>)
    requires
        objects.len() <= usize::MAX,
    ensures
        forall|j: int|
            0 <= j < spec_hit_test_order(objects).len() ==> #[trigger] spec_hit_test_order(objects)[j]
                < objects.len(),
{
    let a = spec_descending(objects, false, 0);
    let b = spec_descending(objects, true, 0);
    assert forall|j: int| 0 <= j < spec_hit_test_order(objects).len() implies #[trigger] spec_hit_test_order(
        objects,
    )[j] < objects.len() by {
        if j < a.len() {
            lemma_descending_in_range(objects, false, 0, j);
        } else {
            lemma_descending_in_range(objects, true, 0, j - a.len());
        }
    }
}

/// The id of the topmost object under `point`, given one measured size per object for text
/// boxes.
pub fn top_object_id_at_point(tools: &EditorTools, point: ToolPoint, text_sizes: &Vec<(u32, u32)>) -> (r: Option<u64>)
    requires
        text_sizes@.len() == tools.spec_objects().len(),
    ensures
        r == spec_first_hit(
            tools.spec_objects(),
            text_sizes@,
            spec_hit_test_order(tools.spec_objects()),
            point,
            false,
            spec_hit_test_order(tools.spec_objects()).len() as int,
        ),
{
    let objects = tools.objects();
    let order = objects_in_hit_test_order(tools);
    proof {
        assert(objects@.len() == objects.len());
        lemma_hit_test_order_in_range(objects@);
    }
    first_hit(objects, text_sizes, &order, point, false)
}

/// The id of the topmost text box under `point`.
pub fn top_text_id_at_point(tools: &EditorTools, point: ToolPoint, text_sizes: &Vec<(u32, u32)>) -> (r: Option<u64>)
    requires
        text_sizes@.len() == tools.spec_objects().len(),
    ensures
        r == spec_first_hit(
            tools.spec_objects(),
            text_sizes@,
            spec_hit_test_order(tools.spec_objects()),
            point,
            true,
            spec_hit_test_order(tools.spec_objects()).len() as int,
        ),
{
    let objects = tools.objects();
    let order = objects_in_hit_test_order(tools);
    proof {
        assert(objects@.len() == objects.len());
        lemma_hit_test_order_in_range(objects@);
    }
    first_hit(objects, text_sizes, &order, point, true)
}

/// The ids, in `order[..n]`, of the objects whose box meets `selection`.
pub open spec fn spec_box_hits(
    objects: Seq<ToolObject>,
    sizes: Seq<(u32, u32)>,
    order: Seq<usize>,
    selection: ToolBounds,
    n: int,
) -> Seq<u64>
    decreases n,
{
    if n <= 0 {
        Seq::empty()
    } else {
        let prev = spec_box_hits(objects, sizes, order, selection, n - 1);
        let i = order[n - 1] as int;
        match spec_object_bounds(objects[i], sizes[i]) {
            Some((x, y, w, h)) => if spec_bounds_intersect(selection, ToolBounds { x, y, width: w, height: h }) {
                prev.push(objects[i].spec_id())
            } else {
                prev
            },
            None => prev,
        }
    }
}

/// The ids, in picking order, of the objects that a drag from `start` to `end` touches.
pub open spec fn spec_drag_box_ids(
    objects: Seq<ToolObject>,
    sizes: Seq<(u32, u32)>,
    start: ToolPoint,
    end: ToolPoint,
) -> Seq<u64> {
    match spec_normalize_tool_box(start, end) {
        None => Seq::empty(),
        Some((x, y, w, h)) => spec_box_hits(
            objects,
            sizes,
            spec_hit_test_order(objects),
            ToolBounds { x, y, width: w, height: h },
            spec_hit_test_order(objects).len() as int,
        ),
    }
}

/// The ids of the objects whose boxes meet the box dragged from `start` to `end`, topmost
/// first; none for a drag without area.
pub fn object_ids_in_drag_box(
    tools: &EditorTools,
    start: ToolPoint,
    end: ToolPoint,
    text_sizes: &Vec<(u32, u32)>,
) -> (ids: Vec<u64>)
    requires
        spec_drag_spans_fit(start, end),
        text_sizes@.len() == tools.spec_objects().len(),
    ensures
        ids@ == spec_drag_box_ids(tools.spec_objects(), text_sizes@, start, end),
{
    let (x, y, width, height) = match normalize_tool_box(start, end) {
        Some(b) => b,
        None => return Vec::new(),
    };
    let selection = ToolBounds { x, y, width, height };
    let objects = tools.objects();
    let order = objects_in_hit_test_order(tools);
    proof {
        assert(objects@.len() == objects.len());
        lemma_hit_test_order_in_range(objects@);
    }
    let mut ids: Vec<u64> = Vec::new();
    let mut i: usize = 0;
    while i < order.len()
        invariant
            0 <= i <= order@.len(),
            text_sizes@.len() == objects@.len(),
            forall|j: int| 0 <= j < order@.len() ==> #[trigger] order@[j] < objects@.len(),
            ids@ == spec_box_hits(objects@, text_sizes@, order@, selection, i as int),
        decreases order.len() - i,
    {
        let index = order[i];
        let object = &objects[index];
        if let Some((ox, oy, ow, oh)) = object_bounds(object, text_sizes[index]) {
            if bounds_intersect(selection, ToolBounds { x: ox, y: oy, width: ow, height: oh }) {
                ids.push(object.id());
            }
        }
        i = i + 1;
    }
    ids
}

/// The topmost object touched by the box dragged from `start` to `end`.
pub fn top_object_id_in_drag_box(
    tools: &EditorTools,
    start: ToolPoint,
    end: ToolPoint,
    text_sizes: &Vec<(u32, u32)>,
) -> (r: Option<u64>)
    requires
        spec_drag_spans_fit(start, end),
        text_sizes@.len() == tools.spec_objects().len(),
    ensures
        r == (if spec_drag_box_ids(tools.spec_objects(), text_sizes@, start, end).len() > 0 {
            Some(spec_drag_box_ids(tools.spec_objects(), text_sizes@, start, end)[0])
        } else {
            None
        }),
{
    let ids = object_ids_in_drag_box(tools, start, end, text_sizes);
    if ids.len() > 0 {
        Some(ids[0])
    } else {
        None
    }
}

/// The positions `spec_descending` lists from `k` on: each at least `k`, with the asked
/// blur-ness, strictly decreasing, and every such position in `k..` listed.
proof fn lemma_descending_facts(objects: Seq<ToolObject>, blur: bool, k: int)
    requires
        0 <= k <= objects.len() <= usize::MAX,
    ensures
        forall|a: int|
            0 <= a < spec_descending(objects, blur, k).len() ==> {
                &&& k <= #[trigger] spec_descending(objects, blur, k)[a] < objects.len()
                &&& spec_is_blur(objects[spec_descending(objects, blur, k)[a] as int]) == blur
            },
        forall|a: int, b: int|
            0 <= a < b < spec_descending(objects, blur, k).len() ==> #[trigger] spec_descending(
                objects,
                blur,
                k,
            )[a] > #[trigger] spec_descending(objects, blur, k)[b],
        forall|m: int|
            k <= m < objects.len() && spec_is_blur(#[trigger] objects[m]) == blur ==> exists|a: int|
                0 <= a < spec_descending(objects, blur, k).len() && #[trigger] spec_descending(
                    objects,
                    blur,
                    k,
                )[a] == m,
    decreases objects.len() - k,
{
    if k < objects.len() {
        lemma_descending_facts(objects, blur, k + 1);
        let above = spec_descending(objects, blur, k + 1);
        let d = spec_descending(objects, blur, k);
        assert forall|m: int| k <= m < objects.len() && spec_is_blur(#[trigger] objects[m]) == blur implies exists|a: int|
            0 <= a < d.len() && #[trigger] d[a] == m by {
            if m == k {
                assert(d[d.len() - 1] == m);
            } else {
                let a = choose|a: int| 0 <= a < above.len() && #[trigger] above[a] == m;
                assert(d[a] == m);
            }
        }
    }
}

/// A picked object is one that `point` hits.
proof fn lemma_first_hit_witness(
    objects: Seq<ToolObject>,
    sizes: Seq<(u32, u32)>,
    order: Seq<usize>,
    point: ToolPoint,
    text_only: bool,
    n: int,
)
    requires
        0 <= n <= order.len(),
        spec_first_hit(objects, sizes, order, point, text_only, n) is Some,
    ensures
        exists|q: int|
            0 <= q < n && spec_hits(objects, sizes, #[trigger] order[q] as int, point, text_only)
                && spec_first_hit(objects, sizes, order, point, text_only, n) == Some(
                objects[order[q] as int].spec_id(),
            ),
    decreases n,
{
    if spec_first_hit(objects, sizes, order, point, text_only, n - 1) is Some {
        lemma_first_hit_witness(objects, sizes, order, point, text_only, n - 1);
        let q = choose|q: int|
            0 <= q < n - 1 && spec_hits(objects, sizes, #[trigger] order[q] as int, point, text_only)
                && spec_first_hit(objects, sizes, order, point, text_only, n - 1) == Some(
                objects[order[q] as int].spec_id(),
            );
        assert(spec_hits(objects, sizes, order[q] as int, point, text_only));
    } else {
        assert(spec_hits(objects, sizes, order[n - 1] as int, point, text_only));
    }
}

/// When position `p` of `order[..n]` is hit, the pick comes from a position at or before `p`.
proof fn lemma_first_hit_at_or_before(
    objects: Seq<ToolObject>,
    sizes: Seq<(u32, u32)>,
    order: Seq<usize>,
    point: ToolPoint,
    text_only: bool,
    p: int,
    n: int,
)
    requires
        0 <= p < n <= order.len(),
        spec_hits(objects, sizes, order[p] as int, point, text_only),
    ensures
        exists|q: int|
            0 <= q <= p && spec_hits(objects, sizes, #[trigger] order[q] as int, point, text_only)
                && spec_first_hit(objects, sizes, order, point, text_only, n) == Some(
                objects[order[q] as int].spec_id(),
            ),
    decreases n,
{
    if n - 1 > p {
        lemma_first_hit_at_or_before(objects, sizes, order, point, text_only, p, n - 1);
    } else if spec_first_hit(objects, sizes, order, point, text_only, p) is Some {
        lemma_first_hit_witness(objects, sizes, order, point, text_only, p);
    } else {
        assert(spec_hits(objects, sizes, order[p] as int, point, text_only));
    }
}

/// Picking takes what is drawn on top: when `point` hits an object other than a blur
/// region, the picked object is also not a blur region, is hit, and was placed no earlier
/// than that object.
pub proof fn lemma_pick_prefers_non_blur(
    objects: Seq<ToolObject>,
    sizes: Seq<(u32, u32)>,
    point: ToolPoint,
    i: int,
)
    requires
        objects.len() <= usize::MAX,
        sizes.len() == objects.len(),
        0 <= i < objects.len(),
        !spec_is_blur(objects[i]),
        spec_hits(objects, sizes, i, point, false),
    ensures
        exists|j: int|
            i <= j < objects.len() && !spec_is_blur(#[trigger] objects[j]) && spec_hits(
                objects,
                sizes,
                j,
                point,
                false,
            ) && spec_first_hit(
                objects,
                sizes,
                spec_hit_test_order(objects),
                point,
                false,
                spec_hit_test_order(objects).len() as int,
            ) == Some(objects[j].spec_id()),
{
    let d = spec_descending(objects, false, 0);
    let order = spec_hit_test_order(objects);
    lemma_descending_facts(objects, false, 0);
    assert(spec_is_blur(objects[i]) == false);
    let p = choose|a: int| 0 <= a < d.len() && #[trigger] d[a] == i;
    assert(order[p] == d[p]);
    lemma_first_hit_at_or_before(objects, sizes, order, point, false, p, order.len() as int);
    let q = choose|q: int|
        0 <= q <= p && spec_hits(objects, sizes, #[trigger] order[q] as int, point, false)
            && spec_first_hit(objects, sizes, order, point, false, order.len() as int) == Some(
            objects[order[q] as int].spec_id(),
        );
    assert(order[q] == d[q]);
    let j = d[q] as int;
    if q < p {
        assert(d[q] > d[p]);
    }
    assert(!spec_is_blur(objects[j]));
}

} // verus!
