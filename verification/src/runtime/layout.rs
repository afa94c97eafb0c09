//! Where windows go on the monitors: keeping a restored window on a monitor and centring
//! a window on the monitor under a point.

use vstd::prelude::*;

use crate::arith::{clamp_i32, sat_add_i32, sat_sub_i32, spec_clamp, spec_max, spec_min, spec_sat_i32};
use crate::capture::flow::CaptureArtifact;
use crate::preview::{PreviewBounds, PreviewSizingTokens, PreviewSourceArea};
use super::window_state::RuntimeWindowGeometry;

verus! {

/// A window side: the reported value when positive, else the fallback, and never below
/// the minimum.
pub open spec fn spec_normalize_window_dimension(value: i32, fallback: i32, minimum: i32) -> i32 {
    spec_max(if value > 0 { value as int } else { fallback as int }, minimum as int) as i32
}

pub fn normalize_window_dimension(value: i32, fallback: i32, minimum: i32) -> (r: i32)
    ensures
        r == spec_normalize_window_dimension(value, fallback, minimum),
{
    let normalized = if value > 0 { value } else { fallback };
    if normalized >= minimum { normalized } else { minimum }
}

/// The first of the given sizes that is positive, else the fallback.
pub open spec fn spec_first_positive(current: i32, default: i32, fallback: i32) -> i32 {
    if current > 0 {
        current
    } else if default > 0 {
        default
    } else {
        fallback
    }
}

/// The geometry to remember for a window: its current size, else its default size, else
/// the fallback size, kept at least at the minimum; the position is the fallback's.
pub fn window_geometry_from_sizes(
    current_width: i32,
    default_width: i32,
    current_height: i32,
    default_height: i32,
    fallback: RuntimeWindowGeometry,
    minimum: RuntimeWindowGeometry,
) -> (g: RuntimeWindowGeometry)
    ensures
        g == (RuntimeWindowGeometry {
            x: fallback.x,
            y: fallback.y,
            width: spec_normalize_window_dimension(
                spec_first_positive(current_width, default_width, fallback.width),
                fallback.width,
                minimum.width,
            ),
            height: spec_normalize_window_dimension(
                spec_first_positive(current_height, default_height, fallback.height),
                fallback.height,
                minimum.height,
            ),
        }),
{
    let width = if current_width > 0 {
        current_width
    } else if default_width > 0 {
        default_width
    } else {
        fallback.width
    };
    let height = if current_height > 0 {
        current_height
    } else if default_height > 0 {
        default_height
    } else {
        fallback.height
    };
    RuntimeWindowGeometry {
        x: fallback.x,
        y: fallback.y,
        width: normalize_window_dimension(width, fallback.width, minimum.width),
        height: normalize_window_dimension(height, fallback.height, minimum.height),
    }
}

/// The area two rectangles share, with saturating right and bottom edges; zero when they
/// do not overlap.
pub open spec fn spec_intersection_area(a: PreviewBounds, b: PreviewBounds) -> int {
    let left = spec_max(a.x as int, b.x as int);
    let right = spec_min(spec_sat_i32(a.x + a.width), spec_sat_i32(b.x + b.width));
    let top = spec_max(a.y as int, b.y as int);
    let bottom = spec_min(spec_sat_i32(a.y + a.height), spec_sat_i32(b.y + b.height));
    if right <= left || bottom <= top {
        0
    } else {
        (right - left) * (bottom - top)
    }
}

pub fn intersection_area(a: PreviewBounds, b: PreviewBounds) -> (area: i64)
    ensures
        area == spec_intersection_area(a, b),
{
    let left = if a.x >= b.x { a.x } else { b.x };
    let a_right = sat_add_i32(a.x, a.width);
    let b_right = sat_add_i32(b.x, b.width);
    let right = if a_right <= b_right { a_right } else { b_right };
    let top = if a.y >= b.y { a.y } else { b.y };
    let a_bottom = sat_add_i32(a.y, a.height);
    let b_bottom = sat_add_i32(b.y, b.height);
    let bottom = if a_bottom <= b_bottom { a_bottom } else { b_bottom };
    if right <= left || bottom <= top {
        return 0;
    }
    let w: i64 = right as i64 - left as i64;
    let h: i64 = bottom as i64 - top as i64;
    assert(w <= 0x7fff_ffff && h <= 0x7fff_ffff);
    assert(0 < w * h <= 0x7fff_ffff * 0x7fff_ffff) by (nonlinear_arith)
        requires
            0 < w <= 0x7fff_ffff,
            0 < h <= 0x7fff_ffff,
    ;
    w * h
}

/// How far `(x, y)` lies outside `bounds` along each axis, measured to the last pixel
/// inside (right and bottom edges saturating).
pub open spec fn spec_outside_gaps(x: i32, y: i32, bounds: PreviewBounds) -> (int, int) {
    let max_x = spec_sat_i32(spec_sat_i32(bounds.x + bounds.width) - 1);
    let max_y = spec_sat_i32(spec_sat_i32(bounds.y + bounds.height) - 1);
    let dx = if x < bounds.x {
        bounds.x - x
    } else if x > max_x {
        x - max_x
    } else {
        0
    };
    let dy = if y < bounds.y {
        bounds.y - y
    } else if y > max_y {
        y - max_y
    } else {
        0
    };
    (dx, dy)
}

/// Both gaps fit in `i32`.
pub open spec fn spec_distance_defined(x: i32, y: i32, bounds: PreviewBounds) -> bool {
    let (dx, dy) = spec_outside_gaps(x, y, bounds);
    dx <= i32::MAX && dy <= i32::MAX
}

/// The squared distance from `(x, y)` to the nearest pixel of `bounds`.
pub open spec fn spec_distance_sq(x: i32, y: i32, bounds: PreviewBounds) -> int {
    let (dx, dy) = spec_outside_gaps(x, y, bounds);
    dx * dx + dy * dy
}

pub fn distance_sq_point_to_bounds(x: i32, y: i32, bounds: PreviewBounds) -> (d: i64)
    requires
        spec_distance_defined(x, y, bounds),
    ensures
        d == spec_distance_sq(x, y, bounds),
{
    let max_x = sat_sub_i32(sat_add_i32(bounds.x, bounds.width), 1);
    let max_y = sat_sub_i32(sat_add_i32(bounds.y, bounds.height), 1);
    let dx: i32 = if x < bounds.x {
        bounds.x - x
    } else if x > max_x {
        x - max_x
    } else {
        0
    };
    let dy: i32 = if y < bounds.y {
        bounds.y - y
    } else if y > max_y {
        y - max_y
    } else {
        0
    };
    let dx64 = dx as i64;
    let dy64 = dy as i64;
    assert(0 <= dx64 * dx64 <= 0x7fff_ffff * 0x7fff_ffff) by (nonlinear_arith)
        requires
            0 <= dx64 <= 0x7fff_ffff,
    ;
    assert(0 <= dy64 * dy64 <= 0x7fff_ffff * 0x7fff_ffff) by (nonlinear_arith)
        requires
            0 <= dy64 <= 0x7fff_ffff,
    ;
    dx64 * dx64 + dy64 * dy64
}

/// A window's box, each side at least one.
pub open spec fn spec_window_box(g: RuntimeWindowGeometry) -> PreviewBounds {
    PreviewBounds {
        x: g.x,
        y: g.y,
        width: spec_max(g.width as int, 1) as i32,
        height: spec_max(g.height as int, 1) as i32,
    }
}

/// The window's centre, saturating.
pub open spec fn spec_window_center(g: RuntimeWindowGeometry) -> (i32, i32) {
    let b = spec_window_box(g);
    (spec_sat_i32(g.x + b.width / 2) as i32, spec_sat_i32(g.y + b.height / 2) as i32)
}

/// Among the first `n` monitors, the one sharing the most area with `window`; the last of
/// equals.
pub open spec fn spec_most_overlap(window: PreviewBounds, monitors: Seq<PreviewBounds>, n: int) -> Option<int>
    decreases n,
{
    if n <= 0 {
        None
    } else {
        match spec_most_overlap(window, monitors, n - 1) {
            None => Some(n - 1),
            Some(i) => if spec_intersection_area(window, monitors[n - 1]) >= spec_intersection_area(
                window,
                monitors[i],
            ) {
                Some(n - 1)
            } else {
                Some(i)
            },
        }
    }
}

/// Among the first `n` monitors, the one nearest to `(x, y)`; the first of equals.
pub open spec fn spec_nearest(x: i32, y: i32, monitors: Seq<PreviewBounds>, n: int) -> Option<int>
    decreases n,
{
    if n <= 0 {
        None
    } else {
        match spec_nearest(x, y, monitors, n - 1) {
            None => Some(n - 1),
            Some(i) => if spec_distance_sq(x, y, monitors[n - 1]) < spec_distance_sq(x, y, monitors[i]) {
                Some(n - 1)
            } else {
                Some(i)
            },
        }
    }
}

/// No monitor shares any area with the window, so the nearest one is looked for.
pub open spec fn spec_needs_nearest(g: RuntimeWindowGeometry, monitors: Seq<PreviewBounds>) -> bool {
    match spec_most_overlap(spec_window_box(g), monitors, monitors.len() as int) {
        Some(i) => spec_intersection_area(spec_window_box(g), monitors[i]) <= 0,
        None => true,
    }
}

/// The monitor a window belongs on: the one it overlaps most, or, when it overlaps none,
/// the one nearest to its centre.
pub open spec fn spec_target_monitor(g: RuntimeWindowGeometry, monitors: Seq<PreviewBounds>) -> Option<PreviewBounds> {
    let (cx, cy) = spec_window_center(g);
    if !spec_needs_nearest(g, monitors) {
        Some(monitors[spec_most_overlap(spec_window_box(g), monitors, monitors.len() as int).unwrap()])
    } else {
        match spec_nearest(cx, cy, monitors, monitors.len() as int) {
            Some(j) => Some(monitors[j]),
            None => None,
        }
    }
}

/// One coordinate of a window of side `size` kept on a monitor span starting at `start`
/// of length `length`: clamped so the window fits when it is smaller, else the span start.
pub open spec fn spec_keep_on_span(value: i32, size: i32, start: i32, length: i32) -> i32 {
    if size < length {
        spec_clamp(value as int, start as int, spec_sat_i32(start + spec_sat_i32(length - size))) as i32
    } else {
        start
    }
}

/// The window moved onto its monitor, with each side at least one.
pub open spec fn spec_clamped_window(g: RuntimeWindowGeometry, monitors: Seq<PreviewBounds>) -> Option<
    RuntimeWindowGeometry,
> {
    let b = spec_window_box(g);
    match spec_target_monitor(g, monitors) {
        None => None,
        Some(t) => Some(
            RuntimeWindowGeometry {
                x: spec_keep_on_span(g.x, b.width, t.x, t.width),
                y: spec_keep_on_span(g.y, b.height, t.y, t.height),
                width: b.width,
                height: b.height,
            },
        ),
    }
}

proof fn lemma_most_overlap_range(window: PreviewBounds, monitors: Seq<PreviewBounds>, n: int)
    requires
        0 <= n,
    ensures
        match spec_most_overlap(window, monitors, n) {
            Some(i) => 0 <= i < n,
            None => n == 0,
        },
    decreases n,
{
    if n > 0 {
        lemma_most_overlap_range(window, monitors, n - 1);
    }
}

proof fn lemma_nearest_range(x: i32, y: i32, monitors: Seq<PreviewBounds>, n: int)
    requires
        0 <= n,
    ensures
        match spec_nearest(x, y, monitors, n) {
            Some(i) => 0 <= i < n,
            None => n == 0,
        },
    decreases n,
{
    if n > 0 {
        lemma_nearest_range(x, y, monitors, n - 1);
    }
}

fn keep_on_span(value: i32, size: i32, start: i32, length: i32) -> (r: i32)
    ensures
        r == spec_keep_on_span(value, size, start, length),
{
    if size < length {
        let limit = sat_add_i32(start, sat_sub_i32(length, size));
        clamp_i32(value, start, limit)
    } else {
        start
    }
}

/// Moves a window onto the monitor it overlaps most, or, when it overlaps none, onto the
/// monitor nearest to its centre; none without monitors.
pub fn clamp_window_geometry_to_bounds(
    window_geometry: RuntimeWindowGeometry,
    bounds: &[PreviewBounds],
) -> (r: Option<RuntimeWindowGeometry>)
    requires
        spec_needs_nearest(window_geometry, bounds@) ==> forall|i: int|
            0 <= i < bounds@.len() ==> spec_distance_defined(
                spec_window_center(window_geometry).0,
                spec_window_center(window_geometry).1,
                #[trigger] bounds@[i],
            ),
    ensures
        r == spec_clamped_window(window_geometry, bounds@),
{
    let width = if window_geometry.width >= 1 { window_geometry.width } else { 1 };
    let height = if window_geometry.height >= 1 { window_geometry.height } else { 1 };
    let window_bounds = PreviewBounds { x: window_geometry.x, y: window_geometry.y, width, height };
    let center_x = sat_add_i32(window_geometry.x, width / 2);
    let center_y = sat_add_i32(window_geometry.y, height / 2);
    let ghost monitors = bounds@;

    let mut best: Option<usize> = None;
    let mut best_area: i64 = 0;
    let mut i: usize = 0;
    while i < bounds.len()
        invariant
            monitors == bounds@,
            0 <= i <= bounds@.len(),
            window_bounds == spec_window_box(window_geometry),
            match best {
                Some(k) => spec_most_overlap(window_bounds, monitors, i as int) == Some(k as int)
                    && best_area == spec_intersection_area(window_bounds, monitors[k as int]),
                None => spec_most_overlap(window_bounds, monitors, i as int) is None,
            },
        decreases bounds.len() - i,
    {
        let area = intersection_area(window_bounds, bounds[i]);
        match best {
            None => {
                best = Some(i);
                best_area = area;
            },
            Some(_) => {
                if area >= best_area {
                    best = Some(i);
                    best_area = area;
                }
            },
        }
        i = i + 1;
    }
    proof {
        lemma_most_overlap_range(window_bounds, monitors, monitors.len() as int);
    }
    let target = match best {
        Some(k) if best_area > 0 => bounds[k],
        _ => {
            let mut nearest: Option<usize> = None;
            let mut nearest_distance: i64 = 0;
            let mut j: usize = 0;
            while j < bounds.len()
                invariant
                    monitors == bounds@,
                    0 <= j <= bounds@.len(),
                    (center_x, center_y) == spec_window_center(window_geometry),
                    forall|m: int|
                        0 <= m < bounds@.len() ==> spec_distance_defined(center_x, center_y, #[trigger] bounds@[m]),
                    match nearest {
                        Some(k) => spec_nearest(center_x, center_y, monitors, j as int) == Some(k as int)
                            && nearest_distance == spec_distance_sq(center_x, center_y, monitors[k as int]),
                        None => spec_nearest(center_x, center_y, monitors, j as int) is None,
                    },
                decreases bounds.len() - j,
            {
                let distance = distance_sq_point_to_bounds(center_x, center_y, bounds[j]);
                match nearest {
                    None => {
                        nearest = Some(j);
                        nearest_distance = distance;
                    },
                    Some(_) => {
                        if distance < nearest_distance {
                            nearest = Some(j);
                            nearest_distance = distance;
                        }
                    },
                }
                j = j + 1;
            }
            proof {
                lemma_nearest_range(center_x, center_y, monitors, monitors.len() as int);
            }
            match nearest {
                Some(k) => bounds[k],
                None => return None,
            }
        },
    };
    let x = keep_on_span(window_geometry.x, width, target.x, target.width);
    let y = keep_on_span(window_geometry.y, height, target.y, target.height);
    Some(RuntimeWindowGeometry { x, y, width, height })
}

/// Whether `(x, y)` lies on `bounds` (right and bottom edges excluded, saturating).
pub open spec fn spec_contains_point(bounds: PreviewBounds, x: i32, y: i32) -> bool {
    bounds.x <= x < spec_sat_i32(bounds.x + bounds.width) && bounds.y <= y < spec_sat_i32(
        bounds.y + bounds.height,
    )
}

/// The first monitor among `monitors[k..]` that contains `(x, y)`.
pub open spec fn spec_first_containing(monitors: Seq<PreviewBounds>, x: i32, y: i32, k: int) -> Option<PreviewBounds>
    decreases monitors.len() - k,
{
    if k < 0 || k >= monitors.len() {
        None
    } else if spec_contains_point(monitors[k], x, y) {
        Some(monitors[k])
    } else {
        spec_first_containing(monitors, x, y, k + 1)
    }
}

/// The monitor under `(x, y)`: the first that contains it, else the first monitor.
pub open spec fn spec_monitor_for_point(monitors: Seq<PreviewBounds>, x: i32, y: i32) -> Option<PreviewBounds> {
    match spec_first_containing(monitors, x, y, 0) {
        Some(b) => Some(b),
        None => if monitors.len() > 0 {
            Some(monitors[0])
        } else {
            None
        },
    }
}

/// The monitor under `(x, y)`, falling back to the first monitor.
pub fn monitor_bounds_for_point(monitors: &[PreviewBounds], x: i32, y: i32) -> (r: Option<PreviewBounds>)
    ensures
        r == spec_monitor_for_point(monitors@, x, y),
{
    let mut i: usize = 0;
    while i < monitors.len()
        invariant
            0 <= i <= monitors@.len(),
            spec_first_containing(monitors@, x, y, 0) == spec_first_containing(monitors@, x, y, i as int),
        decreases monitors.len() - i,
    {
        let b = monitors[i];
        let max_x = sat_add_i32(b.x, b.width);
        let max_y = sat_add_i32(b.y, b.height);
        if x >= b.x && x < max_x && y >= b.y && y < max_y {
            return Some(b);
        }
        i = i + 1;
    }
    if monitors.len() > 0 {
        Some(monitors[0])
    } else {
        None
    }
}

/// The top-left corner that centres a side of `size` on a span, or the span start when it
/// does not fit.
pub open spec fn spec_center_on_span(size: i32, start: i32, length: i32) -> i32 {
    if length > size {
        spec_sat_i32(start + (length - size) / 2) as i32
    } else {
        start
    }
}

/// A window of the given size centred on the monitor under `(anchor_x, anchor_y)`, as
/// `(x, y, width, height)`; without monitors, centred on the anchor itself.
pub open spec fn spec_centered_window(
    anchor_x: i32,
    anchor_y: i32,
    g: RuntimeWindowGeometry,
    monitors: Seq<PreviewBounds>,
) -> (i32, i32, i32, i32) {
    let w = spec_window_box(g);
    let b = match spec_monitor_for_point(monitors, anchor_x, anchor_y) {
        Some(m) => m,
        None => PreviewBounds {
            x: spec_sat_i32(anchor_x - w.width / 2) as i32,
            y: spec_sat_i32(anchor_y - w.height / 2) as i32,
            width: w.width,
            height: w.height,
        },
    };
    (
        spec_center_on_span(w.width, b.x, b.width),
        spec_center_on_span(w.height, b.y, b.height),
        w.width,
        w.height,
    )
}

fn center_on_span(size: i32, start: i32, length: i32) -> (r: i32)
    requires
        size >= 1,
    ensures
        r == spec_center_on_span(size, start, length),
{
    if length > size {
        sat_add_i32(start, (length - size) / 2)
    } else {
        start
    }
}

/// Centres a window of the given size on the monitor under the anchor point.
pub fn centered_window_geometry_for_point(
    anchor_x: i32,
    anchor_y: i32,
    window_geometry: RuntimeWindowGeometry,
    monitors: &[PreviewBounds],
) -> (r: (i32, i32, i32, i32))
    ensures
        r == spec_centered_window(anchor_x, anchor_y, window_geometry, monitors@),
{
    let width = if window_geometry.width >= 1 { window_geometry.width } else { 1 };
    let height = if window_geometry.height >= 1 { window_geometry.height } else { 1 };
    let bounds = match monitor_bounds_for_point(monitors, anchor_x, anchor_y) {
        Some(b) => b,
        None => PreviewBounds {
            x: sat_sub_i32(anchor_x, width / 2),
            y: sat_sub_i32(anchor_y, height / 2),
            width,
            height,
        },
    };
    (center_on_span(width, bounds.x, bounds.width), center_on_span(height, bounds.y, bounds.height), width, height)
}

/// A side of the captured area: the screen side, else the image side, when positive and
/// within `i32`; else the fallback, at least one.
pub open spec fn spec_source_side(screen: u32, image: u32, fallback: i32) -> i32 {
    if 0 < screen <= i32::MAX {
        screen as i32
    } else if 0 < image <= i32::MAX {
        image as i32
    } else {
        spec_max(fallback as int, 1) as i32
    }
}

fn source_side(screen: u32, image: u32, fallback: i32) -> (r: i32)
    ensures
        r == spec_source_side(screen, image, fallback),
{
    if screen > 0 && screen <= i32::MAX as u32 {
        screen as i32
    } else if image > 0 && image <= i32::MAX as u32 {
        image as i32
    } else if fallback >= 1 {
        fallback
    } else {
        1
    }
}

/// The screen area a capture came from.
pub fn capture_source_area(artifact: &CaptureArtifact, fallback_width: i32, fallback_height: i32) -> (a: PreviewSourceArea)
    ensures
        a == (PreviewSourceArea {
            x: artifact.screen_x,
            y: artifact.screen_y,
            width: spec_source_side(artifact.screen_width, artifact.width, fallback_width),
            height: spec_source_side(artifact.screen_height, artifact.height, fallback_height),
        }),
{
    PreviewSourceArea {
        x: artifact.screen_x,
        y: artifact.screen_y,
        width: source_side(artifact.screen_width, artifact.width, fallback_width),
        height: source_side(artifact.screen_height, artifact.height, fallback_height),
    }
}

/// Centres a window of the given size on the monitor under the centre of a capture's area.
pub fn centered_window_geometry_for_capture(
    artifact: &CaptureArtifact,
    window_geometry: RuntimeWindowGeometry,
    monitors: &[PreviewBounds],
) -> (r: (i32, i32, i32, i32))
    ensures
        ({
            let source = PreviewSourceArea {
                x: artifact.screen_x,
                y: artifact.screen_y,
                width: spec_source_side(artifact.screen_width, artifact.width, window_geometry.width),
                height: spec_source_side(artifact.screen_height, artifact.height, window_geometry.height),
            };
            r == spec_centered_window(
                spec_sat_i32(source.x + source.width / 2) as i32,
                spec_sat_i32(source.y + source.height / 2) as i32,
                window_geometry,
                monitors@,
            )
        }),
{
    let source = capture_source_area(artifact, window_geometry.width, window_geometry.height);
    let center_x = sat_add_i32(source.x, source.width / 2);
    let center_y = sat_add_i32(source.y, source.height / 2);
    centered_window_geometry_for_point(center_x, center_y, window_geometry, monitors)
}

/// The geometry to keep for a window: where the compositor reports it, with each side at
/// least the minimum (and at least 1); else the measured geometry.
pub fn resolve_window_geometry_with_hypr(
    measured: RuntimeWindowGeometry,
    reported: Option<(i32, i32, i32, i32)>,
    minimum: RuntimeWindowGeometry,
) -> (g: RuntimeWindowGeometry)
    ensures
        match reported {
            Some((x, y, width, height)) => g == (RuntimeWindowGeometry {
                x,
                y,
                width: spec_max(width as int, spec_max(minimum.width as int, 1)) as i32,
                height: spec_max(height as int, spec_max(minimum.height as int, 1)) as i32,
            }),
            None => g == measured,
        },
{
    let minimum_width = if minimum.width >= 1 { minimum.width } else { 1 };
    let minimum_height = if minimum.height >= 1 { minimum.height } else { 1 };
    match reported {
        Some((x, y, width, height)) => RuntimeWindowGeometry::with_position(
            x,
            y,
            if width >= minimum_width { width } else { minimum_width },
            if height >= minimum_height { height } else { minimum_height },
        ),
        None => measured,
    }
}

/// The bounds a preview is placed in when no monitor lies under the capture: the capture's
/// area, grown to the preview's default and minimum size (and at least 1).
pub fn fallback_preview_bounds(source: PreviewSourceArea, sizing: PreviewSizingTokens) -> (b: PreviewBounds)
    ensures
        b == (PreviewBounds {
            x: source.x,
            y: source.y,
            width: spec_max(
                spec_max(spec_max(source.width as int, sizing.default_width as int), sizing.min_width as int),
                1,
            ) as i32,
            height: spec_max(
                spec_max(spec_max(source.height as int, sizing.default_height as int), sizing.min_height as int),
                1,
            ) as i32,
        }),
{
    let mut width = source.width;
    if sizing.default_width > width {
        width = sizing.default_width;
    }
    if sizing.min_width > width {
        width = sizing.min_width;
    }
    if width < 1 {
        width = 1;
    }
    let mut height = source.height;
    if sizing.default_height > height {
        height = sizing.default_height;
    }
    if sizing.min_height > height {
        height = sizing.min_height;
    }
    if height < 1 {
        height = 1;
    }
    PreviewBounds { x: source.x, y: source.y, width, height }
}

} // verus!
