use chalkak::editor::render::{
    action_metadata, bounded_region_for_blur, preedit_cursor_char_index,
    text_content_with_preedit, TextPreeditState,
};
use chalkak::editor::tools::{
    adjust_ratio_to_fit, scale_ratio_dimension, BlurRegion, CropPreset, ImageBounds, PenPoint,
    TextElement, TextOptions, ToolBounds, ToolPoint,
};
use chalkak::editor::{
    EditorAction, EditorInputMode, EditorTools, EditorViewport, ToolError, ToolKind,
};

fn session() -> EditorTools {
    EditorTools::new()
}

#[test]
fn editor_viewport_defaults_to_100_percent_and_origin() {
    let viewport = EditorViewport::new();
    assert_eq!(viewport.zoom_percent(), 100);
    assert_eq!(viewport.pan_x(), 0);
    assert_eq!(viewport.pan_y(), 0);
}

#[test]
fn editor_viewport_zoom_controls_clamp() {
    let mut viewport = EditorViewport::new();
    viewport.zoom_out();
    assert_eq!(viewport.zoom_percent(), 90);

    for _ in 0..100 {
        viewport.zoom_out();
    }
    assert_eq!(viewport.zoom_percent(), 1);

    for _ in 0..200 {
        viewport.zoom_in();
    }
    assert_eq!(viewport.zoom_percent(), 1600);
}

#[test]
fn editor_viewport_zoom_steps_follow_level_ladder_for_non_level_values() {
    let mut viewport = EditorViewport::new();
    viewport.set_zoom_percent(137);
    viewport.zoom_in();
    assert_eq!(viewport.zoom_percent(), 150);

    viewport.set_zoom_percent(137);
    viewport.zoom_out();
    assert_eq!(viewport.zoom_percent(), 125);
}

#[test]
fn editor_viewport_pan_tracks_offsets() {
    let mut viewport = EditorViewport::new();
    viewport.pan_right();
    viewport.pan_down();
    assert_eq!(viewport.pan_x(), 48);
    assert_eq!(viewport.pan_y(), 48);
}

#[test]
fn editor_viewport_actual_size_resets_offsets() {
    let mut viewport = EditorViewport::new();
    viewport.zoom_in();
    viewport.pan_by(120, -30);
    assert_eq!(viewport.zoom_percent(), 110);
    assert_eq!(viewport.pan_x(), 120);
    assert_eq!(viewport.pan_y(), -30);

    viewport.set_actual_size();
    assert_eq!(viewport.zoom_percent(), 100);
    assert_eq!(viewport.pan_x(), 0);
    assert_eq!(viewport.pan_y(), 0);
}

#[test]
fn editor_input_mode_applies_crop_text_exclusivity_and_reset() {
    let mut mode = EditorInputMode::new();
    assert!(!mode.crop_active());
    assert!(!mode.text_input_active());

    mode.activate_crop();
    assert!(mode.crop_active());
    assert!(!mode.text_input_active());

    mode.start_text_input();
    assert!(!mode.crop_active());
    assert!(mode.text_input_active());

    mode.end_text_input();
    assert!(!mode.text_input_active());

    mode.activate_crop();
    mode.reset();
    assert!(!mode.crop_active());
    assert!(!mode.text_input_active());
}

#[test]
fn viewport_zoom_in_and_out_stay_on_the_ladder_and_clamp_setters() {
    let mut viewport = EditorViewport::new();
    viewport.set_zoom_percent(0);
    assert_eq!(viewport.zoom_percent(), 1);
    viewport.set_zoom_percent(5000);
    assert_eq!(viewport.zoom_percent(), 1600);
    viewport.zoom_in();
    assert_eq!(viewport.zoom_percent(), 1600);
    viewport.set_zoom_percent(100);
    viewport.zoom_in();
    viewport.zoom_out();
    assert_eq!(viewport.zoom_percent(), 100);
    viewport.set_pan(i32::MAX, i32::MIN);
    viewport.pan_by(10, -10);
    assert_eq!(viewport.pan_x(), i32::MAX);
    assert_eq!(viewport.pan_y(), i32::MIN);
    assert_eq!(EditorViewport::min_zoom_percent(), 1);
    assert_eq!(EditorViewport::max_zoom_percent(), 1600);
}

#[test]
fn pen_arrow_rectangle_show_color_and_stroke_width() {
    for tool in [ToolKind::Pen, ToolKind::Arrow, ToolKind::Rectangle] {
        let vis = tool.option_visibility();
        assert!(vis.has_color, "{tool:?} should have color");
        assert!(vis.has_stroke_width, "{tool:?} should have stroke width");
        assert!(!vis.has_text_size, "{tool:?} should not have text size");
        assert!(!vis.has_crop_preset, "{tool:?} should not have crop preset");
        assert!(vis.has_any());
    }
}

#[test]
fn text_shows_color_and_text_size() {
    let vis = ToolKind::Text.option_visibility();
    assert!(vis.has_color);
    assert!(!vis.has_stroke_width);
    assert!(vis.has_text_size);
    assert!(!vis.has_crop_preset);
    assert!(vis.has_any());
}

#[test]
fn crop_shows_only_crop_preset() {
    let vis = ToolKind::Crop.option_visibility();
    assert!(!vis.has_color);
    assert!(!vis.has_stroke_width);
    assert!(!vis.has_text_size);
    assert!(vis.has_crop_preset);
    assert!(vis.has_any());
}

#[test]
fn select_pan_blur_ocr_have_no_options() {
    for tool in [ToolKind::Select, ToolKind::Pan, ToolKind::Blur, ToolKind::Ocr] {
        let vis = tool.option_visibility();
        assert!(!vis.has_any(), "{tool:?} should have no options");
    }
}

#[test]
fn crop_preset_label_returns_expected_strings() {
    assert_eq!(CropPreset::Free.label(), "Free");
    assert_eq!(CropPreset::Ratio16x9.label(), "16:9");
    assert_eq!(CropPreset::Ratio1x1.label(), "1:1");
    assert_eq!(CropPreset::Ratio9x16.label(), "9:16");
    assert_eq!(CropPreset::Original.label(), "Original");
}

#[test]
fn crop_preset_all_contains_every_unique_variant() {
    let expected = [
        CropPreset::Free,
        CropPreset::Ratio16x9,
        CropPreset::Ratio1x1,
        CropPreset::Ratio9x16,
        CropPreset::Original,
    ];
    assert_eq!(CropPreset::ALL.len(), expected.len());
    for variant in &expected {
        assert!(CropPreset::ALL.contains(variant), "ALL is missing {variant:?}");
    }
    for (i, a) in CropPreset::ALL.iter().enumerate() {
        for (j, b) in CropPreset::ALL.iter().enumerate() {
            if i != j {
                assert_ne!(a, b, "ALL has duplicate at indices {i} and {j}");
            }
        }
    }
}

#[test]
fn resolve_ratio_returns_static_ratio_for_fixed_presets() {
    assert_eq!(CropPreset::Ratio16x9.resolve_ratio(800, 600), Some((16, 9)));
    assert_eq!(CropPreset::Ratio1x1.resolve_ratio(800, 600), Some((1, 1)));
    assert_eq!(CropPreset::Ratio9x16.resolve_ratio(800, 600), Some((9, 16)));
}

#[test]
fn resolve_ratio_returns_image_dims_for_original() {
    assert_eq!(CropPreset::Original.resolve_ratio(1920, 1080), Some((1920, 1080)));
    assert_eq!(CropPreset::Original.resolve_ratio(0, 0), Some((1, 1)));
}

#[test]
fn resolve_ratio_returns_none_for_free() {
    assert_eq!(CropPreset::Free.resolve_ratio(800, 600), None);
}

#[test]
fn ratio_scaling_keeps_aspect_and_fits() {
    assert_eq!(scale_ratio_dimension(90, 16, 9), 160);
    assert_eq!(scale_ratio_dimension(90, 16, 0), 0);
    assert_eq!(scale_ratio_dimension(u32::MAX, u32::MAX, 1), u32::MAX);
    assert_eq!(adjust_ratio_to_fit(800, 600, 16, 9), (800, 450));
    assert_eq!(adjust_ratio_to_fit(300, 600, 1, 1), (300, 300));
}

#[test]
fn tool_blur_resize_clamps_geometry_and_anchor_to_image_bounds() {
    let mut tools = session();
    let blur_id = tools
        .add_blur(BlurRegion::new(10, 10, 20, 20))
        .expect("blur should be inserted");
    tools
        .resize_blur(blur_id, ToolBounds::new(90, 95, 50, 40), ImageBounds::new(100, 100))
        .expect("resize should clamp within image");
    let blur = tools.get_blur(blur_id).expect("blur should exist");
    assert_eq!(blur.region, BlurRegion::new(90, 95, 10, 5));
    assert_eq!(blur.anchor, ToolPoint::new(90, 95));
}

#[test]
fn tool_crop_resize_enforces_min_size_and_bounds() {
    let mut tools = session();
    tools.select_tool(ToolKind::Crop);
    let crop_id = tools
        .add_crop_in_bounds(ToolPoint::new(10, 10), ToolPoint::new(80, 70), 100, 100)
        .expect("crop should be inserted");
    tools
        .resize_crop(crop_id, ToolBounds::new(70, 70, 40, 40), ImageBounds::new(100, 100))
        .expect("crop resize should clamp to image bounds");
    let crop = tools.get_crop(crop_id).expect("crop should exist");
    assert_eq!(crop.x, 70);
    assert_eq!(crop.y, 70);
    assert_eq!(crop.width, 30);
    assert_eq!(crop.height, 30);

    let err = tools
        .resize_crop(crop_id, ToolBounds::new(70, 70, 10, 10), ImageBounds::new(100, 100))
        .expect_err("crop smaller than minimum should fail");
    assert!(matches!(err, ToolError::InvalidCropGeometry));
}

#[test]
fn tool_move_pen_stroke_hits_edge_without_distorting_shape() {
    let mut tools = session();
    let stroke_id = tools.begin_pen_stroke(ToolPoint::new(80, 10));
    tools
        .append_pen_point(stroke_id, ToolPoint::new(90, 20))
        .expect("stroke point should append");
    tools
        .append_pen_point(stroke_id, ToolPoint::new(95, 25))
        .expect("stroke point should append");
    tools.finish_pen_stroke(stroke_id).expect("stroke should finalize");

    tools
        .move_object_by(stroke_id, 10, 0, 100, 100)
        .expect("move should clamp to image edge");
    let stroke = tools.get_pen_stroke(stroke_id).expect("stroke should exist");
    assert_eq!(
        stroke.points,
        vec![PenPoint::new(84, 10), PenPoint::new(94, 20), PenPoint::new(99, 25)]
    );

    tools
        .move_object_by(stroke_id, 10, 0, 100, 100)
        .expect("move at edge should stay in bounds");
    let stroke = tools.get_pen_stroke(stroke_id).expect("stroke should exist");
    assert_eq!(
        stroke.points,
        vec![PenPoint::new(84, 10), PenPoint::new(94, 20), PenPoint::new(99, 25)]
    );
}

#[test]
fn tool_move_arrow_hits_edge_without_shortening() {
    let mut tools = session();
    let arrow_id = tools
        .add_arrow(ToolPoint::new(80, 40), ToolPoint::new(95, 70))
        .expect("arrow should be inserted");

    tools
        .move_object_by(arrow_id, 10, 0, 100, 100)
        .expect("move should clamp to image edge");
    let arrow = tools.get_arrow(arrow_id).expect("arrow should exist");
    assert_eq!(arrow.start, ToolPoint::new(84, 40));
    assert_eq!(arrow.end, ToolPoint::new(99, 70));
}

#[test]
fn tool_move_blur_can_slide_along_edge() {
    let mut tools = session();
    let blur_id = tools
        .add_blur(BlurRegion::new(80, 10, 20, 20))
        .expect("blur should be inserted");

    tools
        .move_object_by(blur_id, 15, 12, 100, 100)
        .expect("move should clamp only blocked axis");
    let blur = tools.get_blur(blur_id).expect("blur should exist");
    assert_eq!(blur.region, BlurRegion::new(80, 22, 20, 20));
    assert_eq!(blur.anchor, ToolPoint::new(80, 22));
}

#[test]
fn tools_count_objects_by_kind_and_remove_them() {
    let mut tools = session();
    let blur = tools.add_blur(BlurRegion::new(0, 0, 10, 10)).expect("blur");
    let _arrow = tools.add_arrow(ToolPoint::new(0, 0), ToolPoint::new(5, 5)).expect("arrow");
    let text = tools.add_text_box(ToolPoint::new(3, 3));
    assert_eq!(tools.blur_count(), 1);
    assert_eq!(tools.arrow_count(), 1);
    assert_eq!(tools.text_count(), 1);
    assert_eq!(tools.pen_stroke_count(), 0);
    assert_eq!(tools.objects().len(), 3);
    assert!(blur != text);
    assert!(tools.remove_object(blur).is_some());
    assert!(tools.remove_object(blur).is_none());
    assert_eq!(tools.blur_count(), 0);
    assert!(tools.get_blur(blur).is_none());
}

#[test]
fn empty_blur_and_missing_objects_are_errors() {
    let mut tools = session();
    assert!(matches!(
        tools.add_blur(BlurRegion::new(0, 0, 0, 10)),
        Err(ToolError::InvalidBlurRegion)
    ));
    assert!(matches!(
        tools.append_pen_point(42, ToolPoint::new(1, 1)),
        Err(ToolError::PenStrokeNotFound)
    ));
    assert!(tools.move_object_by(42, 1, 1, 100, 100).is_err());
}

#[test]
fn typing_then_deleting_restores_text_and_cursor() {
    let mut text = TextElement::with_text(1, ToolPoint::new(0, 0), "héllo", TextOptions::default());
    let _ = text.move_cursor_left();
    let before = text.content.clone();
    let cursor = text.cursor_chars();
    text.insert_char('가');
    assert_eq!(text.content, "héll가o");
    assert!(text.delete_backward());
    assert_eq!(text.content, before);
    assert_eq!(text.cursor_chars(), cursor);
}

#[test]
fn cursor_left_then_right_comes_back() {
    let mut text = TextElement::with_text(1, ToolPoint::new(0, 0), "ab\ncd", TextOptions::default());
    assert_eq!(text.cursor_chars(), 5);
    assert!(!text.move_cursor_right());
    assert!(text.move_cursor_left());
    assert!(text.move_cursor_right());
    assert_eq!(text.cursor_chars(), 5);
    assert!(text.move_cursor_up());
    assert_eq!(text.cursor_chars(), 2);
    assert!(text.move_cursor_down());
    assert_eq!(text.cursor_chars(), 5);
}

#[test]
fn preedit_cursor_char_index_handles_multibyte_positions() {
    let text = "가나다abc";
    let idx = preedit_cursor_char_index(text, 6);
    assert_eq!(idx, 2);
}

#[test]
fn preedit_cursor_char_index_counts_from_start_and_end() {
    assert_eq!(preedit_cursor_char_index("abc", -3), 0);
    assert_eq!(preedit_cursor_char_index("abc", 0), 0);
    assert_eq!(preedit_cursor_char_index("abc", 100), 3);
    assert_eq!(preedit_cursor_char_index("가나", 1), 1);
}

#[test]
fn text_content_with_preedit_inserts_inline_at_cursor() {
    let options = TextOptions::default();
    let mut text = TextElement::with_text(1, ToolPoint::new(0, 0), "hello", options);
    let _ = text.move_cursor_left();
    let _ = text.move_cursor_left();
    let preedit = TextPreeditState { content: "가".to_string(), cursor_chars: 1 };
    let merged = text_content_with_preedit(&text, &preedit);
    assert_eq!(merged, "hel가lo");
}

#[test]
fn text_content_without_preedit_is_the_content() {
    let text = TextElement::with_text(1, ToolPoint::new(0, 0), "hello", TextOptions::default());
    assert_eq!(text_content_with_preedit(&text, &TextPreeditState::default()), "hello");
}

#[test]
fn bounded_region_for_blur_clamps_to_source_dimensions() {
    let region = bounded_region_for_blur(-5, -10, 200, 120, 64, 48).expect("expected region");
    assert_eq!(region, (0, 0, 64, 48));
}

#[test]
fn bounded_region_for_blur_rejects_empty_and_keeps_inner() {
    assert_eq!(bounded_region_for_blur(0, 0, 0, 10, 64, 48), None);
    assert_eq!(bounded_region_for_blur(0, 0, 10, 10, 0, 48), None);
    assert_eq!(bounded_region_for_blur(10, 5, 8, 6, 64, 48), Some((10, 5, 8, 6)));
    assert_eq!(bounded_region_for_blur(100, 100, 8, 6, 64, 48), Some((63, 47, 1, 1)));
}

#[test]
fn action_metadata_names_output_actions() {
    assert_eq!(action_metadata(EditorAction::Save), Some(("save", "Save")));
    assert_eq!(action_metadata(EditorAction::Copy), Some(("copy", "Copy")));
    assert_eq!(action_metadata(EditorAction::CloseRequested), None);
}

#[test]
fn get_text_mut_edits_the_text_box_in_place() {
    let mut tools = session();
    let id = tools.add_text_box(ToolPoint::new(1, 1));
    let blur = tools.add_blur(BlurRegion::new(0, 0, 4, 4)).expect("blur");
    if let Some(text) = tools.get_text_mut(id) {
        text.insert_char('x');
    }
    assert_eq!(tools.get_text(id).expect("text").content, "x");
    assert!(tools.get_text_mut(blur).is_none());
    assert!(tools.get_text_mut(id + 100).is_none());
    assert!(tools.focus_text_box(id));
    assert_eq!(tools.active_text_id(), Some(id));
}
