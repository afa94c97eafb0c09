use chalkak::capture::flow::CaptureArtifact;
use chalkak::preview::{PreviewBounds, PreviewSizingTokens, PreviewSourceArea};
use chalkak::runtime::layout::{
    capture_source_area, centered_window_geometry_for_capture, centered_window_geometry_for_point,
    clamp_window_geometry_to_bounds, distance_sq_point_to_bounds, intersection_area,
    fallback_preview_bounds, monitor_bounds_for_point, normalize_window_dimension,
    resolve_window_geometry_with_hypr, window_geometry_from_sizes,
};
use chalkak::runtime::RuntimeWindowGeometry;

fn monitor(x: i32, y: i32, width: i32, height: i32) -> PreviewBounds {
    PreviewBounds {
        x,
        y,
        width,
        height,
    }
}

fn artifact(screen_width: u32, screen_height: u32) -> CaptureArtifact {
    CaptureArtifact {
        capture_id: "capture".to_string(),
        temp_path: "/tmp/capture.png".to_string(),
        width: 320,
        height: 180,
        screen_x: 100,
        screen_y: 50,
        screen_width,
        screen_height,
        created_at: 0,
    }
}

#[test]
fn clamp_window_geometry_to_bounds_keeps_intersecting_window_position() {
    let bounds = [PreviewBounds {
        x: 0,
        y: 0,
        width: 1920,
        height: 1080,
    }];
    let geometry = RuntimeWindowGeometry::with_position(120, 80, 900, 560);

    assert_eq!(
        clamp_window_geometry_to_bounds(geometry, &bounds),
        Some(geometry)
    );
}

#[test]
fn clamp_window_geometry_to_bounds_moves_offscreen_window_to_nearest_monitor_edge() {
    let bounds = [PreviewBounds {
        x: 0,
        y: 0,
        width: 1920,
        height: 1080,
    }];
    let geometry = RuntimeWindowGeometry::with_position(5000, 120, 800, 600);

    assert_eq!(
        clamp_window_geometry_to_bounds(geometry, &bounds),
        Some(RuntimeWindowGeometry::with_position(1120, 120, 800, 600))
    );
}

#[test]
fn clamp_window_geometry_to_bounds_selects_nearest_monitor_when_original_monitor_missing() {
    let bounds = [
        PreviewBounds {
            x: 0,
            y: 0,
            width: 1920,
            height: 1080,
        },
        PreviewBounds {
            x: 1920,
            y: 0,
            width: 2560,
            height: 1440,
        },
    ];
    let geometry = RuntimeWindowGeometry::with_position(5200, 140, 900, 700);

    assert_eq!(
        clamp_window_geometry_to_bounds(geometry, &bounds),
        Some(RuntimeWindowGeometry::with_position(3580, 140, 900, 700))
    );
}

#[test]
fn clamp_window_geometry_prefers_monitor_with_most_overlap() {
    let bounds = [monitor(0, 0, 1000, 1000), monitor(1000, 0, 1000, 1000)];
    let geometry = RuntimeWindowGeometry::with_position(900, 100, 400, 300);
    assert_eq!(
        clamp_window_geometry_to_bounds(geometry, &bounds),
        Some(RuntimeWindowGeometry::with_position(1000, 100, 400, 300))
    );
    let larger_than_monitor = RuntimeWindowGeometry::with_position(50, 60, 3000, 0);
    assert_eq!(
        clamp_window_geometry_to_bounds(larger_than_monitor, &bounds),
        Some(RuntimeWindowGeometry::with_position(1000, 60, 3000, 1))
    );
    assert_eq!(clamp_window_geometry_to_bounds(geometry, &[]), None);
}

#[test]
fn intersection_area_and_distance_measure_monitors() {
    let a = monitor(0, 0, 100, 50);
    assert_eq!(intersection_area(a, monitor(50, 25, 100, 100)), 50 * 25);
    assert_eq!(intersection_area(a, monitor(100, 0, 10, 10)), 0);
    assert_eq!(distance_sq_point_to_bounds(103, 54, a), 4 * 4 + 5 * 5);
    assert_eq!(distance_sq_point_to_bounds(10, 10, a), 0);
    assert_eq!(distance_sq_point_to_bounds(-3, -4, a), 25);
}

#[test]
fn monitor_bounds_for_point_falls_back_to_first_monitor() {
    let monitors = [monitor(0, 0, 100, 100), monitor(100, 0, 100, 100)];
    assert_eq!(monitor_bounds_for_point(&monitors, 150, 10), Some(monitors[1]));
    assert_eq!(monitor_bounds_for_point(&monitors, 100, 10), Some(monitors[1]));
    assert_eq!(monitor_bounds_for_point(&monitors, 500, 500), Some(monitors[0]));
    assert_eq!(monitor_bounds_for_point(&[], 1, 1), None);
}

#[test]
fn centered_window_geometry_centres_on_monitor_under_anchor() {
    let monitors = [monitor(0, 0, 1920, 1080), monitor(1920, 0, 2560, 1440)];
    let geometry = RuntimeWindowGeometry::with_position(0, 0, 800, 600);
    assert_eq!(
        centered_window_geometry_for_point(2000, 100, geometry, &monitors),
        (1920 + 880, 420, 800, 600)
    );
    assert_eq!(
        centered_window_geometry_for_point(400, 300, geometry, &[]),
        (0, 0, 800, 600)
    );
    let too_wide = RuntimeWindowGeometry::with_position(0, 0, 3000, 600);
    assert_eq!(
        centered_window_geometry_for_point(10, 10, too_wide, &monitors),
        (0, 240, 3000, 600)
    );
}

#[test]
fn capture_source_area_prefers_screen_size_then_image_size() {
    assert_eq!(
        capture_source_area(&artifact(640, 360), 10, 10),
        PreviewSourceArea {
            x: 100,
            y: 50,
            width: 640,
            height: 360
        }
    );
    assert_eq!(
        capture_source_area(&artifact(0, u32::MAX), 10, 10),
        PreviewSourceArea {
            x: 100,
            y: 50,
            width: 320,
            height: 180
        }
    );
    let monitors = [monitor(0, 0, 1920, 1080)];
    let geometry = RuntimeWindowGeometry::with_position(0, 0, 800, 600);
    assert_eq!(
        centered_window_geometry_for_capture(&artifact(640, 360), geometry, &monitors),
        (560, 240, 800, 600)
    );
}

#[test]
fn window_geometry_from_sizes_uses_first_known_size() {
    let fallback = RuntimeWindowGeometry::with_position(5, 6, 700, 500);
    let minimum = RuntimeWindowGeometry::new(300, 200);
    assert_eq!(
        window_geometry_from_sizes(0, 640, 100, 0, fallback, minimum),
        RuntimeWindowGeometry::with_position(5, 6, 640, 200)
    );
    assert_eq!(
        window_geometry_from_sizes(0, 0, 0, 0, fallback, minimum),
        RuntimeWindowGeometry::with_position(5, 6, 700, 500)
    );
    assert_eq!(normalize_window_dimension(-4, 50, 60), 60);
    assert_eq!(normalize_window_dimension(90, 50, 60), 90);
}

#[test]
fn hypr_reported_geometry_wins_and_respects_minimum() {
    let measured = RuntimeWindowGeometry::with_position(10, 20, 800, 600);
    let minimum = RuntimeWindowGeometry::new(320, 240);
    assert_eq!(
        resolve_window_geometry_with_hypr(measured, Some((100, 50, 200, 900)), minimum),
        RuntimeWindowGeometry::with_position(100, 50, 320, 900)
    );
    assert_eq!(resolve_window_geometry_with_hypr(measured, None, minimum), measured);
    assert_eq!(
        resolve_window_geometry_with_hypr(measured, Some((0, 0, 0, -5)), RuntimeWindowGeometry::new(0, 0)),
        RuntimeWindowGeometry::with_position(0, 0, 1, 1)
    );
}

#[test]
fn fallback_preview_bounds_grow_to_default_and_minimum() {
    let sizing = PreviewSizingTokens { default_width: 640, default_height: 360, min_width: 700, min_height: 200 };
    let small = PreviewSourceArea { x: 5, y: 6, width: 100, height: 100 };
    assert_eq!(fallback_preview_bounds(small, sizing), PreviewBounds { x: 5, y: 6, width: 700, height: 360 });
    let large = PreviewSourceArea { x: -10, y: 0, width: 1920, height: 1080 };
    assert_eq!(fallback_preview_bounds(large, sizing), PreviewBounds { x: -10, y: 0, width: 1920, height: 1080 });
    let zero = PreviewSizingTokens { default_width: 0, default_height: -1, min_width: 0, min_height: 0 };
    let empty = PreviewSourceArea { x: 0, y: 0, width: 0, height: -3 };
    assert_eq!(fallback_preview_bounds(empty, zero), PreviewBounds { x: 0, y: 0, width: 1, height: 1 });
}
