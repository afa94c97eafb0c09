use chalkak::editor::hit_test::{
    object_bounds, object_ids_in_drag_box, objects_in_draw_order, objects_in_hit_test_order,
    top_object_id_at_point, top_object_id_in_drag_box, top_text_id_at_point,
};
use chalkak::editor::interaction::{
    bounds_intersect, clamp_tool_point, corner_points_for_bounds, ensure_selected_object_exists,
    handle_at_point_for_bounds, is_object_selected, normalize_tool_box, opposite_corner,
    point_in_bounds, resizable_object_handle_at_point, resize_object_from_handle,
    resize_status_label, resized_bounds_from_handle, resized_crop_from_handle,
    set_optional_single_selection, set_single_selection, tool_kind_label, RectangleHandle,
    ResizableObjectKind,
};
use chalkak::editor::tools::{
    adjust_ratio_to_fit, BlurRegion, CropElement, CropOptions, CropPreset, ImageBounds, ToolBounds,
    ToolPoint,
};
use chalkak::editor::{EditorTools, ToolKind, ToolObject};

fn sizes_for(tools: &EditorTools, size: (u32, u32)) -> Vec<(u32, u32)> {
    vec![size; tools.objects().len()]
}

fn ids_at(tools: &EditorTools, order: &[usize]) -> Vec<u64> {
    order.iter().map(|index| tools.objects()[*index].id()).collect()
}

#[test]
fn normalize_tool_box_rejects_zero_area() {
    let p = ToolPoint::new(10, 12);
    assert_eq!(normalize_tool_box(p, p), None);
}

#[test]
fn adjust_ratio_to_fit_maintains_aspect_boundary() {
    assert_eq!(adjust_ratio_to_fit(400, 120, 16, 9), (213, 120));
    assert_eq!(adjust_ratio_to_fit(120, 400, 16, 9), (120, 67));
}

#[test]
fn resized_bounds_from_handle_clamps_to_image_bounds() {
    let bounds = ToolBounds::new(10, 10, 100, 60);
    let resized = resized_bounds_from_handle(
        bounds,
        RectangleHandle::TopLeft,
        ToolPoint::new(-30, -20),
        ImageBounds::new(120, 80),
    )
    .expect("resized bounds expected");
    assert_eq!(resized, ToolBounds::new(0, 0, 110, 70));
}

#[test]
fn resized_bounds_from_handle_rejects_tiny_results() {
    let bounds = ToolBounds::new(10, 10, 20, 20);
    let resized = resized_bounds_from_handle(
        bounds,
        RectangleHandle::TopLeft,
        ToolPoint::new(28, 28),
        ImageBounds::new(100, 100),
    );
    assert_eq!(resized, None);
}

#[test]
fn top_object_hit_test_prioritizes_non_blur_over_later_blur() {
    let mut tools = EditorTools::new();
    let text_id = tools.add_text_box(ToolPoint::new(24, 24));
    let blur_id = tools
        .add_blur(BlurRegion::new(20, 20, 80, 60))
        .expect("blur should be inserted");
    let sizes = sizes_for(&tools, (8, 21));

    assert_eq!(
        top_object_id_at_point(&tools, ToolPoint::new(28, 28), &sizes),
        Some(text_id)
    );
    assert_eq!(
        ids_at(&tools, &objects_in_draw_order(&tools)),
        vec![blur_id, text_id]
    );
}

#[test]
fn normalize_tool_box_orders_corners() {
    assert_eq!(
        normalize_tool_box(ToolPoint::new(30, 5), ToolPoint::new(10, 25)),
        Some((10, 5, 20, 20))
    );
    assert_eq!(
        normalize_tool_box(ToolPoint::new(3, 3), ToolPoint::new(9, 3)),
        None
    );
}

#[test]
fn clamp_tool_point_keeps_points_on_the_image() {
    assert_eq!(
        clamp_tool_point(ToolPoint::new(-5, 500), 100, 80),
        ToolPoint::new(0, 79)
    );
    assert_eq!(
        clamp_tool_point(ToolPoint::new(40, 30), 100, 80),
        ToolPoint::new(40, 30)
    );
    assert_eq!(clamp_tool_point(ToolPoint::new(7, 7), 0, 0), ToolPoint::new(0, 0));
}

#[test]
fn point_in_bounds_counts_padding_and_edges() {
    assert!(point_in_bounds(ToolPoint::new(6, 6), 10, 10, 20, 20, 4));
    assert!(!point_in_bounds(ToolPoint::new(5, 10), 10, 10, 20, 20, 4));
    assert!(point_in_bounds(ToolPoint::new(34, 34), 10, 10, 20, 20, 4));
    assert!(!point_in_bounds(ToolPoint::new(35, 20), 10, 10, 20, 20, 4));
    assert!(point_in_bounds(
        ToolPoint::new(i32::MAX, i32::MAX),
        i32::MAX - 1,
        i32::MAX - 1,
        u32::MAX,
        u32::MAX,
        4
    ));
}

#[test]
fn bounds_intersect_includes_touching_edges() {
    let a = ToolBounds::new(0, 0, 10, 10);
    assert!(bounds_intersect(a, ToolBounds::new(10, 10, 5, 5)));
    assert!(!bounds_intersect(a, ToolBounds::new(11, 0, 5, 5)));
    assert!(bounds_intersect(ToolBounds::new(5, 5, 1, 1), a));
}

#[test]
fn corner_points_and_handles_follow_box_corners() {
    let corners = corner_points_for_bounds(10, 20, 30, 40);
    assert_eq!(
        corners,
        vec![
            (RectangleHandle::TopLeft, ToolPoint::new(10, 20)),
            (RectangleHandle::TopRight, ToolPoint::new(40, 20)),
            (RectangleHandle::BottomLeft, ToolPoint::new(10, 60)),
            (RectangleHandle::BottomRight, ToolPoint::new(40, 60)),
        ]
    );
    assert_eq!(
        handle_at_point_for_bounds(10, 20, 30, 40, ToolPoint::new(47, 53)),
        Some(RectangleHandle::BottomRight)
    );
    assert_eq!(
        handle_at_point_for_bounds(10, 20, 30, 40, ToolPoint::new(25, 40)),
        None
    );
    assert_eq!(
        handle_at_point_for_bounds(10, 20, 4, 4, ToolPoint::new(12, 22)),
        Some(RectangleHandle::TopLeft)
    );
}

#[test]
fn opposite_corner_stays_fixed_while_dragging() {
    let bounds = ToolBounds::new(10, 20, 30, 40);
    assert_eq!(opposite_corner(bounds, RectangleHandle::TopLeft), Some((40, 60)));
    assert_eq!(opposite_corner(bounds, RectangleHandle::TopRight), Some((10, 60)));
    assert_eq!(opposite_corner(bounds, RectangleHandle::BottomLeft), Some((40, 20)));
    assert_eq!(opposite_corner(bounds, RectangleHandle::BottomRight), Some((10, 20)));
    assert_eq!(
        opposite_corner(ToolBounds::new(0, 0, u32::MAX, 1), RectangleHandle::TopLeft),
        None
    );
}

#[test]
fn resized_bounds_from_handle_flips_past_the_anchor() {
    let bounds = ToolBounds::new(10, 10, 20, 20);
    let resized = resized_bounds_from_handle(
        bounds,
        RectangleHandle::BottomRight,
        ToolPoint::new(0, 2),
        ImageBounds::new(100, 100),
    );
    assert_eq!(resized, Some(ToolBounds::new(0, 2, 10, 8)));
}

#[test]
fn resized_crop_from_handle_keeps_ratio_and_minimum() {
    let mut options = CropOptions::default();
    options.set_preset(CropPreset::Ratio1x1);
    let crop = CropElement::new(7, 100, 100, 50, 50, options);
    let resized = resized_crop_from_handle(
        &crop,
        RectangleHandle::BottomRight,
        ToolPoint::new(180, 140),
        400,
        300,
    )
    .expect("crop should resize");
    assert_eq!((resized.id, resized.x, resized.y), (7, 100, 100));
    assert_eq!((resized.width, resized.height), (40, 40));

    let top_left = resized_crop_from_handle(
        &crop,
        RectangleHandle::TopLeft,
        ToolPoint::new(60, 20),
        400,
        300,
    )
    .expect("crop should resize");
    assert_eq!(
        (top_left.x, top_left.y, top_left.width, top_left.height),
        (60, 60, 90, 90)
    );

    assert_eq!(
        resized_crop_from_handle(
            &crop,
            RectangleHandle::BottomRight,
            ToolPoint::new(105, 140),
            400,
            300
        ),
        None
    );
}

#[test]
fn resize_object_from_handle_updates_only_matching_kind() {
    let mut tools = EditorTools::new();
    tools.select_tool(ToolKind::Rectangle);
    let rect_id = tools
        .add_rectangle(ToolPoint::new(10, 10), ToolPoint::new(30, 30))
        .expect("rectangle should be inserted");

    assert!(!resize_object_from_handle(
        &mut tools,
        rect_id,
        ResizableObjectKind::Blur,
        RectangleHandle::BottomRight,
        ToolPoint::new(60, 60),
        100,
        100
    ));
    assert!(resize_object_from_handle(
        &mut tools,
        rect_id,
        ResizableObjectKind::Rectangle,
        RectangleHandle::BottomRight,
        ToolPoint::new(60, 50),
        100,
        100
    ));
    match tools.object(rect_id) {
        Some(ToolObject::Rectangle(rect)) => {
            assert_eq!((rect.x, rect.y, rect.width, rect.height), (10, 10, 50, 40));
        }
        other => panic!("unexpected object {other:?}"),
    }
    assert!(!resize_object_from_handle(
        &mut tools,
        rect_id,
        ResizableObjectKind::Rectangle,
        RectangleHandle::BottomRight,
        ToolPoint::new(12, 12),
        100,
        100
    ));
}

#[test]
fn resizable_object_handle_at_point_reports_kind() {
    let mut tools = EditorTools::new();
    let blur_id = tools
        .add_blur(BlurRegion::new(20, 20, 40, 40))
        .expect("blur should be inserted");
    let blur = tools.object(blur_id).expect("blur exists").clone();
    assert_eq!(
        resizable_object_handle_at_point(&blur, ToolPoint::new(61, 19)),
        Some((ResizableObjectKind::Blur, RectangleHandle::TopRight))
    );
    let text_id = tools.add_text_box(ToolPoint::new(5, 5));
    let text = tools.object(text_id).expect("text exists").clone();
    assert_eq!(resizable_object_handle_at_point(&text, ToolPoint::new(5, 5)), None);
}

#[test]
fn drag_box_lists_touched_objects_topmost_first() {
    let mut tools = EditorTools::new();
    let blur_id = tools
        .add_blur(BlurRegion::new(0, 0, 50, 50))
        .expect("blur should be inserted");
    tools.select_tool(ToolKind::Rectangle);
    let first = tools
        .add_rectangle(ToolPoint::new(10, 10), ToolPoint::new(20, 20))
        .expect("rectangle");
    let second = tools
        .add_rectangle(ToolPoint::new(15, 15), ToolPoint::new(25, 25))
        .expect("rectangle");
    let far = tools
        .add_rectangle(ToolPoint::new(200, 200), ToolPoint::new(220, 220))
        .expect("rectangle");
    let sizes = sizes_for(&tools, (8, 16));

    assert_eq!(
        object_ids_in_drag_box(&tools, ToolPoint::new(0, 0), ToolPoint::new(30, 30), &sizes),
        vec![second, first, blur_id]
    );
    assert_eq!(
        top_object_id_in_drag_box(&tools, ToolPoint::new(30, 30), ToolPoint::new(0, 0), &sizes),
        Some(second)
    );
    assert_eq!(
        object_ids_in_drag_box(&tools, ToolPoint::new(5, 5), ToolPoint::new(5, 40), &sizes),
        Vec::<u64>::new()
    );
    assert_eq!(
        ids_at(&tools, &objects_in_hit_test_order(&tools)),
        vec![far, second, first, blur_id]
    );
}

#[test]
fn top_text_id_at_point_ignores_other_objects() {
    let mut tools = EditorTools::new();
    let text_id = tools.add_text_box(ToolPoint::new(10, 10));
    tools.select_tool(ToolKind::Rectangle);
    let rect_id = tools
        .add_rectangle(ToolPoint::new(0, 0), ToolPoint::new(40, 40))
        .expect("rectangle");
    let sizes = sizes_for(&tools, (20, 16));
    assert_eq!(
        top_object_id_at_point(&tools, ToolPoint::new(12, 12), &sizes),
        Some(rect_id)
    );
    assert_eq!(
        top_text_id_at_point(&tools, ToolPoint::new(12, 12), &sizes),
        Some(text_id)
    );
    assert_eq!(top_text_id_at_point(&tools, ToolPoint::new(39, 39), &sizes), None);
}

#[test]
fn object_bounds_of_strokes_and_arrows_include_end_points() {
    let mut tools = EditorTools::new();
    tools.select_tool(ToolKind::Pen);
    let stroke_id = tools.begin_pen_stroke(ToolPoint::new(5, 9));
    tools
        .append_pen_point(stroke_id, ToolPoint::new(2, 14))
        .expect("point appended");
    let stroke = tools.object(stroke_id).expect("stroke").clone();
    assert_eq!(object_bounds(&stroke, (0, 0)), Some((2, 9, 4, 6)));

    tools.select_tool(ToolKind::Arrow);
    let arrow_id = tools
        .add_arrow(ToolPoint::new(30, 4), ToolPoint::new(10, 8))
        .expect("arrow");
    let arrow = tools.object(arrow_id).expect("arrow").clone();
    assert_eq!(object_bounds(&arrow, (0, 0)), Some((10, 4, 21, 5)));

    let text_id = tools.add_text_box(ToolPoint::new(3, 4));
    let text = tools.object(text_id).expect("text").clone();
    assert_eq!(object_bounds(&text, (30, 18)), Some((3, 4, 30, 18)));
}

#[test]
fn selection_helpers_track_selected_ids() {
    let mut tools = EditorTools::new();
    let kept = tools.add_text_box(ToolPoint::new(1, 1));
    let mut selected = vec![kept, 999, kept];
    ensure_selected_object_exists(&tools, &mut selected);
    assert_eq!(selected, vec![kept, kept]);

    set_single_selection(&mut selected, 42);
    assert_eq!(selected, vec![42]);
    assert!(is_object_selected(&selected, 42));
    assert!(!is_object_selected(&selected, 7));

    set_optional_single_selection(&mut selected, None);
    assert!(selected.is_empty());
    set_optional_single_selection(&mut selected, Some(3));
    assert_eq!(selected, vec![3]);
}

#[test]
fn labels_name_tools_and_resize_kinds() {
    assert_eq!(tool_kind_label(ToolKind::Rectangle), "Rect");
    assert_eq!(tool_kind_label(ToolKind::Ocr), "OCR");
    assert_eq!(resize_status_label(ResizableObjectKind::Crop), "crop frame resized");
    assert_eq!(resize_status_label(ResizableObjectKind::Blur), "blur region resized");
}
