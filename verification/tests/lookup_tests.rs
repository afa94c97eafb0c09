use chalkak::editor::tools::{
    BlurElement, BlurOptions, BlurRegion, CropElement, CropOptions, ImageBounds, TextElement,
    TextOptions, ToolBounds, ToolPoint,
};
use chalkak::editor::{EditorTools, ToolError, ToolObject};

fn blur(id: u64) -> ToolObject {
    ToolObject::Blur(BlurElement {
        id,
        region: BlurRegion::new(0, 0, 20, 20),
        anchor: ToolPoint::new(0, 0),
        options: BlurOptions::default(),
    })
}

#[test]
fn lookups_by_kind_pass_over_other_kinds_with_the_same_id() {
    let mut tools = EditorTools::new();
    let text = TextElement::new(5, ToolPoint::new(3, 4), TextOptions::default());
    tools.replace_objects(vec![blur(5), ToolObject::Text(text.clone())]);
    assert_eq!(tools.get_text(5).map(|t| t.id), Some(5));
    assert_eq!(tools.get_text(5).map(|t| t.x), Some(3));
    assert!(tools.get_blur(5).is_some());
    assert!(tools.get_crop(5).is_none());
    assert!(tools.focus_text_box(5));
    assert_eq!(tools.active_text_id(), Some(5));
    assert!(matches!(tools.object(5), Some(ToolObject::Blur(_))));
}

#[test]
fn resize_crop_finds_the_crop_behind_another_kind() {
    let mut tools = EditorTools::new();
    let crop = CropElement::new(5, 10, 10, 40, 40, CropOptions::default());
    tools.replace_objects(vec![blur(5), ToolObject::Crop(crop)]);
    let image = ImageBounds::new(100, 100);
    assert_eq!(
        tools.resize_crop(5, ToolBounds::new(90, 90, 20, 20), image),
        Err(ToolError::InvalidCropGeometry)
    );
    assert_eq!(tools.resize_crop(5, ToolBounds::new(70, 70, 40, 40), image), Ok(()));
    let resized = tools.get_crop(5).copied().unwrap();
    assert_eq!((resized.x, resized.y, resized.width, resized.height), (70, 70, 30, 30));
    assert_eq!(tools.resize_blur(5, ToolBounds::new(1, 2, 3, 4), image), Ok(()));
    assert_eq!(tools.get_blur(5).unwrap().region.x, 1);
}
