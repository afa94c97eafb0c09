//! The annotation tools and the editor's collection of placed objects.

pub mod arrow;
pub mod blur;
pub mod crop;
pub mod pen;
mod operations;
mod query;
pub mod selection;
pub mod rectangle;
pub mod text;

pub use operations::{lemma_crop_box_keeps_preset_ratio, spec_crop_box, spec_span, spec_unchanged_except};

use vstd::prelude::*;

pub use crate::geometry::{Color, ImageBounds, ToolBounds, ToolPoint};
pub use arrow::{ArrowElement, ArrowOptions};
pub use blur::{BlurElement, BlurOptions, BlurRegion};
pub use crop::{CropElement, CropOptions, CropPreset, CROP_MIN_SIZE};
pub use pen::{PenOptions, PenPoint, PenStroke};
pub use rectangle::{RectangleElement, RectangleOptions};
pub use text::{TextElement, TextFontFamily, TextOptions};

verus! {

/// `value` clamped into `[min, max]`.
pub fn clamp_u8_range(value: u8, min: u8, max: u8) -> (r: u8)
    requires
        min <= max,
    ensures
        r == crate::arith::spec_clamp(value as int, min as int, max as int),
{
    if value < min {
        min
    } else if value > max {
        max
    } else {
        value
    }
}

} // verus!

verus! {

/// Which option controls a tool shows.
#[derive(Debug, Clone, Copy, PartialEq, Eq, Structural)]
pub struct ToolOptionVisibility {
    pub has_color: bool,
    pub has_stroke_width: bool,
    pub has_text_size: bool,
    pub has_crop_preset: bool,
}

impl ToolOptionVisibility {
    /// Whether any option control is shown.
    pub fn has_any(&self) -> (b: bool)
        ensures
            b == (self.has_color || self.has_stroke_width || self.has_text_size
                || self.has_crop_preset),
    {
        self.has_color || self.has_stroke_width || self.has_text_size || self.has_crop_preset
    }
}

/// The editor's tools.
#[derive(Debug, Clone, Copy, PartialEq, Eq, Structural)]
pub enum ToolKind {
    Select,
    Pan,
    Blur,
    Pen,
    Arrow,
    Rectangle,
    Crop,
    Text,
    Ocr,
}

/// The option controls of each tool: color and stroke width for pen, arrow and rectangle;
/// color and text size for text; the preset for crop; none for the others.
pub open spec fn spec_option_visibility(tool: ToolKind) -> ToolOptionVisibility {
    match tool {
        ToolKind::Pen | ToolKind::Arrow | ToolKind::Rectangle => ToolOptionVisibility {
            has_color: true,
            has_stroke_width: true,
            has_text_size: false,
            has_crop_preset: false,
        },
        ToolKind::Text => ToolOptionVisibility {
            has_color: true,
            has_stroke_width: false,
            has_text_size: true,
            has_crop_preset: false,
        },
        ToolKind::Crop => ToolOptionVisibility {
            has_color: false,
            has_stroke_width: false,
            has_text_size: false,
            has_crop_preset: true,
        },
        _ => ToolOptionVisibility {
            has_color: false,
            has_stroke_width: false,
            has_text_size: false,
            has_crop_preset: false,
        },
    }
}

impl ToolKind {
    pub fn option_visibility(self) -> (v: ToolOptionVisibility)
        ensures
            v == spec_option_visibility(self),
    {
        match self {
            ToolKind::Pen | ToolKind::Arrow | ToolKind::Rectangle => ToolOptionVisibility {
                has_color: true,
                has_stroke_width: true,
                has_text_size: false,
                has_crop_preset: false,
            },
            ToolKind::Text => ToolOptionVisibility {
                has_color: true,
                has_stroke_width: false,
                has_text_size: true,
                has_crop_preset: false,
            },
            ToolKind::Crop => ToolOptionVisibility {
                has_color: false,
                has_stroke_width: false,
                has_text_size: false,
                has_crop_preset: true,
            },
            ToolKind::Select | ToolKind::Pan | ToolKind::Blur | ToolKind::Ocr => ToolOptionVisibility {
                has_color: false,
                has_stroke_width: false,
                has_text_size: false,
                has_crop_preset: false,
            },
        }
    }
}

/// A placed annotation.
#[derive(Debug, Clone, PartialEq, Eq)]
pub enum ToolObject {
    Blur(BlurElement),
    Pen(PenStroke),
    Arrow(ArrowElement),
    Rectangle(RectangleElement),
    Crop(CropElement),
    Text(TextElement),
}

impl ToolObject {
    /// The object's id.
    pub open spec fn spec_id(&self) -> u64 {
        match self {
            ToolObject::Blur(blur) => blur.id,
            ToolObject::Pen(stroke) => stroke.id,
            ToolObject::Arrow(arrow) => arrow.id,
            ToolObject::Rectangle(rectangle) => rectangle.id,
            ToolObject::Crop(crop) => crop.id,
            ToolObject::Text(text) => text.id,
        }
    }

    pub fn id(&self) -> (id: u64)
        ensures
            id == self.spec_id(),
    {
        match self {
            ToolObject::Blur(blur) => blur.id,
            ToolObject::Pen(stroke) => stroke.id,
            ToolObject::Arrow(arrow) => arrow.id,
            ToolObject::Rectangle(rectangle) => rectangle.id,
            ToolObject::Crop(crop) => crop.id,
            ToolObject::Text(text) => text.id,
        }
    }

    pub fn as_crop(&self) -> (c: Option<&CropElement>)
        ensures
            match self {
                ToolObject::Crop(crop) => c == Some(crop),
                _ => c is None,
            },
    {
        match self {
            ToolObject::Crop(crop) => Some(crop),
            _ => None,
        }
    }

    pub fn as_text(&self) -> (t: Option<&TextElement>)
        ensures
            match self {
                ToolObject::Text(text) => t == Some(text),
                _ => t is None,
            },
    {
        match self {
            ToolObject::Text(text) => Some(text),
            _ => None,
        }
    }

    pub fn as_blur(&self) -> (b: Option<&BlurElement>)
        ensures
            match self {
                ToolObject::Blur(blur) => b == Some(blur),
                _ => b is None,
            },
    {
        match self {
            ToolObject::Blur(blur) => Some(blur),
            _ => None,
        }
    }

    pub fn as_pen(&self) -> (p: Option<&PenStroke>)
        ensures
            match self {
                ToolObject::Pen(stroke) => p == Some(stroke),
                _ => p is None,
            },
    {
        match self {
            ToolObject::Pen(stroke) => Some(stroke),
            _ => None,
        }
    }

    pub fn as_arrow(&self) -> (a: Option<&ArrowElement>)
        ensures
            match self {
                ToolObject::Arrow(arrow) => a == Some(arrow),
                _ => a is None,
            },
    {
        match self {
            ToolObject::Arrow(arrow) => Some(arrow),
            _ => None,
        }
    }

    pub fn as_rectangle(&self) -> (r: Option<&RectangleElement>)
        ensures
            match self {
                ToolObject::Rectangle(rectangle) => r == Some(rectangle),
                _ => r is None,
            },
    {
        match self {
            ToolObject::Rectangle(rectangle) => Some(rectangle),
            _ => None,
        }
    }
}

/// Why a tool operation was refused.
#[derive(Debug, Clone, PartialEq, Eq, Structural)]
pub enum ToolError {
    InvalidBlurRegion,
    InvalidArrowGeometry,
    InvalidRectangleGeometry,
    InvalidCropGeometry,
    EmptyPenStroke,
    PenStrokeNotFound,
    ObjectNotFound,
    ToolNotSelected,
}

impl ToolError {
    /// The error's name, as it is shown in a status line.
    pub open spec fn spec_name(&self) -> Seq<char> {
        match self {
            ToolError::InvalidBlurRegion => "InvalidBlurRegion"@,
            ToolError::InvalidArrowGeometry => "InvalidArrowGeometry"@,
            ToolError::InvalidRectangleGeometry => "InvalidRectangleGeometry"@,
            ToolError::InvalidCropGeometry => "InvalidCropGeometry"@,
            ToolError::EmptyPenStroke => "EmptyPenStroke"@,
            ToolError::PenStrokeNotFound => "PenStrokeNotFound"@,
            ToolError::ObjectNotFound => "ObjectNotFound"@,
            ToolError::ToolNotSelected => "ToolNotSelected"@,
        }
    }

    pub fn name(&self) -> (s: &'static str)
        ensures
            s@ == self.spec_name(),
    {
        match self {
            ToolError::InvalidBlurRegion => "InvalidBlurRegion",
            ToolError::InvalidArrowGeometry => "InvalidArrowGeometry",
            ToolError::InvalidRectangleGeometry => "InvalidRectangleGeometry",
            ToolError::InvalidCropGeometry => "InvalidCropGeometry",
            ToolError::EmptyPenStroke => "EmptyPenStroke",
            ToolError::PenStrokeNotFound => "PenStrokeNotFound",
            ToolError::ObjectNotFound => "ObjectNotFound",
            ToolError::ToolNotSelected => "ToolNotSelected",
        }
    }
}

/// Position of the first object with `id` at or after `i`, or -1.
pub open spec fn spec_index_from(objects: Seq<ToolObject>, id: u64, i: int) -> int
    decreases objects.len() - i,
{
    if i < 0 || i >= objects.len() {
        -1
    } else if objects[i].spec_id() == id {
        i
    } else {
        spec_index_from(objects, id, i + 1)
    }
}

/// Position of the first object with `id`, or -1 when there is none.
pub open spec fn spec_index_of(objects: Seq<ToolObject>, id: u64) -> int {
    spec_index_from(objects, id, 0)
}

proof fn lemma_index_from(objects: Seq<ToolObject>, id: u64, i: int)
    requires
        0 <= i <= objects.len(),
    ensures
        -1 <= spec_index_from(objects, id, i) < objects.len(),
        spec_index_from(objects, id, i) == -1 ==> forall|j: int|
            i <= j < objects.len() ==> #[trigger] objects[j].spec_id() != id,
        spec_index_from(objects, id, i) != -1 ==> i <= spec_index_from(objects, id, i)
            && objects[spec_index_from(objects, id, i)].spec_id() == id && forall|j: int|
            i <= j < spec_index_from(objects, id, i) ==> #[trigger] objects[j].spec_id() != id,
    decreases objects.len() - i,
{
    if i < objects.len() {
        lemma_index_from(objects, id, i + 1);
    }
}

/// The first object with `id` comes first: no earlier object has that id, and -1 means
/// that no object has it.
pub proof fn lemma_index_of(objects: Seq<ToolObject>, id: u64)
    ensures
        -1 <= spec_index_of(objects, id) < objects.len(),
        spec_index_of(objects, id) == -1 <==> forall|j: int|
            0 <= j < objects.len() ==> #[trigger] objects[j].spec_id() != id,
        spec_index_of(objects, id) != -1 ==> objects[spec_index_of(objects, id)].spec_id() == id
            && forall|j: int|
            0 <= j < spec_index_of(objects, id) ==> #[trigger] objects[j].spec_id() != id,
{
    lemma_index_from(objects, id, 0);
}

/// The object with `id`, if any: the first one holding it.
pub open spec fn spec_find(objects: Seq<ToolObject>, id: u64) -> Option<ToolObject> {
    if spec_index_of(objects, id) == -1 {
        None
    } else {
        Some(objects[spec_index_of(objects, id)])
    }
}

/// The tool that draws an object.
pub open spec fn spec_object_kind(o: ToolObject) -> ToolKind {
    match o {
        ToolObject::Blur(_) => ToolKind::Blur,
        ToolObject::Pen(_) => ToolKind::Pen,
        ToolObject::Arrow(_) => ToolKind::Arrow,
        ToolObject::Rectangle(_) => ToolKind::Rectangle,
        ToolObject::Crop(_) => ToolKind::Crop,
        ToolObject::Text(_) => ToolKind::Text,
    }
}

/// Position of the first object at or after `i` that has `id` and is drawn by `kind`, or -1.
pub open spec fn spec_kind_index_from(objects: Seq<ToolObject>, id: u64, kind: ToolKind, i: int) -> int
    decreases objects.len() - i,
{
    if i < 0 || i >= objects.len() {
        -1
    } else if objects[i].spec_id() == id && spec_object_kind(objects[i]) == kind {
        i
    } else {
        spec_kind_index_from(objects, id, kind, i + 1)
    }
}

/// Position of the first object that has `id` and is drawn by `kind`, or -1: objects of
/// other kinds that share the id are passed over.
pub open spec fn spec_kind_index_of(objects: Seq<ToolObject>, id: u64, kind: ToolKind) -> int {
    spec_kind_index_from(objects, id, kind, 0)
}

proof fn lemma_kind_index_from(objects: Seq<ToolObject>, id: u64, kind: ToolKind, i: int)
    requires
        0 <= i <= objects.len(),
    ensures
        -1 <= spec_kind_index_from(objects, id, kind, i) < objects.len(),
        spec_kind_index_from(objects, id, kind, i) == -1 ==> forall|j: int|
            i <= j < objects.len() ==> !(#[trigger] objects[j].spec_id() == id && spec_object_kind(objects[j])
                == kind),
        spec_kind_index_from(objects, id, kind, i) != -1 ==> i <= spec_kind_index_from(objects, id, kind, i)
            && objects[spec_kind_index_from(objects, id, kind, i)].spec_id() == id && spec_object_kind(
            objects[spec_kind_index_from(objects, id, kind, i)],
        ) == kind && forall|j: int|
            i <= j < spec_kind_index_from(objects, id, kind, i) ==> !(#[trigger] objects[j].spec_id() == id
                && spec_object_kind(objects[j]) == kind),
    decreases objects.len() - i,
{
    if i < objects.len() {
        lemma_kind_index_from(objects, id, kind, i + 1);
    }
}

/// The first object with `id` drawn by `kind` holds that id and is of that kind; -1 means
/// no object is both.
pub proof fn lemma_kind_index_of(objects: Seq<ToolObject>, id: u64, kind: ToolKind)
    ensures
        -1 <= spec_kind_index_of(objects, id, kind) < objects.len(),
        spec_kind_index_of(objects, id, kind) == -1 <==> forall|j: int|
            0 <= j < objects.len() ==> !(#[trigger] objects[j].spec_id() == id && spec_object_kind(objects[j])
                == kind),
        spec_kind_index_of(objects, id, kind) != -1 ==> objects[spec_kind_index_of(objects, id, kind)].spec_id()
            == id && spec_object_kind(objects[spec_kind_index_of(objects, id, kind)]) == kind && forall|j: int|
            0 <= j < spec_kind_index_of(objects, id, kind) ==> !(#[trigger] objects[j].spec_id() == id
                && spec_object_kind(objects[j]) == kind),
{
    lemma_kind_index_from(objects, id, kind, 0);
}

/// When the first object with `id` is of some kind, it is also the first with `id` of that
/// kind.
pub proof fn lemma_first_is_first_of_its_kind(objects: Seq<ToolObject>, id: u64)
    requires
        spec_index_of(objects, id) != -1,
    ensures
        spec_kind_index_of(objects, id, spec_object_kind(objects[spec_index_of(objects, id)]))
            == spec_index_of(objects, id),
{
    let i = spec_index_of(objects, id);
    lemma_index_of(objects, id);
    let kind = spec_object_kind(objects[i]);
    lemma_kind_index_of(objects, id, kind);
    let k = spec_kind_index_of(objects, id, kind);
    if k == -1 {
        assert(objects[i].spec_id() == id && spec_object_kind(objects[i]) == kind);
    } else if k < i {
        assert(objects[k].spec_id() != id);
    } else if k > i {
        assert(!(objects[i].spec_id() == id && spec_object_kind(objects[i]) == kind));
    }
}

/// The first object with `id` that `kind` draws, if any.
pub open spec fn spec_find_kind(objects: Seq<ToolObject>, id: u64, kind: ToolKind) -> Option<ToolObject> {
    if spec_kind_index_of(objects, id, kind) == -1 {
        None
    } else {
        Some(objects[spec_kind_index_of(objects, id, kind)])
    }
}

/// The crop boxes among `objects`, in order.
pub open spec fn spec_crops(objects: Seq<ToolObject>) -> Seq<CropElement>
    decreases objects.len(),
{
    if objects.len() == 0 {
        Seq::empty()
    } else {
        let rest = spec_crops(objects.drop_last());
        match objects.last() {
            ToolObject::Crop(crop) => rest.push(crop),
            _ => rest,
        }
    }
}

/// The editor's placed objects, tool selection and tool options.
#[derive(Debug, Clone)]
pub struct EditorTools {
    active_tool: ToolKind,
    blur_options: BlurOptions,
    pen_options: PenOptions,
    arrow_options: ArrowOptions,
    rectangle_options: RectangleOptions,
    crop_options: CropOptions,
    text_options: TextOptions,
    objects: Vec<ToolObject>,
    next_id: u64,
    active_pen_stroke: Option<u64>,
    active_text_box: Option<u64>,
}

} // verus!

verus! {

impl EditorTools {
    /// The placed objects, bottom to top.
    pub closed spec fn spec_objects(&self) -> Seq<ToolObject> {
        self.objects@
    }

    /// The selected tool.
    pub closed spec fn spec_active_tool(&self) -> ToolKind {
        self.active_tool
    }

    /// The id the next new object receives.
    pub closed spec fn spec_next_id(&self) -> u64 {
        self.next_id
    }

    /// The pen stroke being drawn, if any.
    pub closed spec fn spec_active_pen_stroke(&self) -> Option<u64> {
        self.active_pen_stroke
    }

    /// The text box taking keyboard input, if any.
    pub closed spec fn spec_active_text_box(&self) -> Option<u64> {
        self.active_text_box
    }

    pub closed spec fn spec_blur_options(&self) -> BlurOptions {
        self.blur_options
    }

    pub closed spec fn spec_pen_options(&self) -> PenOptions {
        self.pen_options
    }

    pub closed spec fn spec_arrow_options(&self) -> ArrowOptions {
        self.arrow_options
    }

    pub closed spec fn spec_rectangle_options(&self) -> RectangleOptions {
        self.rectangle_options
    }

    pub closed spec fn spec_crop_options(&self) -> CropOptions {
        self.crop_options
    }

    pub closed spec fn spec_text_options(&self) -> TextOptions {
        self.text_options
    }

    /// Everything but the objects and the active stroke and text box is as in `other`.
    pub open spec fn spec_same_settings(&self, other: &EditorTools) -> bool {
        &&& self.spec_active_tool() == other.spec_active_tool()
        &&& self.spec_blur_options() == other.spec_blur_options()
        &&& self.spec_pen_options() == other.spec_pen_options()
        &&& self.spec_arrow_options() == other.spec_arrow_options()
        &&& self.spec_rectangle_options() == other.spec_rectangle_options()
        &&& self.spec_crop_options() == other.spec_crop_options()
        &&& self.spec_text_options() == other.spec_text_options()
    }

    /// Only the options and the tool selection may differ from `other`.
    pub open spec fn spec_same_objects(&self, other: &EditorTools) -> bool {
        &&& self.spec_objects() == other.spec_objects()
        &&& self.spec_next_id() == other.spec_next_id()
        &&& self.spec_active_pen_stroke() == other.spec_active_pen_stroke()
        &&& self.spec_active_text_box() == other.spec_active_text_box()
    }

    /// Every placed object has an id below the next one to be handed out.
    pub open spec fn spec_ids_below_next(&self) -> bool {
        forall|i: int|
            0 <= i < self.spec_objects().len() ==> #[trigger] self.spec_objects()[i].spec_id()
                < self.spec_next_id()
    }

    /// An empty canvas with the select tool and default options; ids start at one.
    pub fn new() -> (t: Self)
        ensures
            t.spec_objects() == Seq::<ToolObject>::empty(),
            t.spec_active_tool() == ToolKind::Select,
            t.spec_next_id() == 1,
            t.spec_active_pen_stroke() is None,
            t.spec_active_text_box() is None,
            t.spec_blur_options().intensity == 50,
            t.spec_pen_options() == (PenOptions {
                color: Color { r: 0, g: 0, b: 0 },
                opacity: 100,
                thickness: 3,
            }),
            t.spec_arrow_options() == (ArrowOptions {
                color: Color { r: 0, g: 0, b: 0 },
                thickness: 3,
                head_size: 8,
            }),
            t.spec_rectangle_options() == (RectangleOptions {
                border_color: Color { r: 0, g: 0, b: 0 },
                thickness: 3,
                border_radius: 0,
                fill_enabled: false,
            }),
            t.spec_crop_options().preset == CropPreset::Free,
            t.spec_text_options() == (TextOptions {
                color: Color { r: 0, g: 0, b: 0 },
                size: 16,
                weight: 500,
                family: TextFontFamily::Sans,
            }),
    {
        EditorTools {
            active_tool: ToolKind::Select,
            blur_options: BlurOptions::default(),
            pen_options: PenOptions::default(),
            arrow_options: ArrowOptions::default(),
            rectangle_options: RectangleOptions::default(),
            crop_options: CropOptions::default(),
            text_options: TextOptions::default(),
            objects: Vec::new(),
            next_id: 1,
            active_pen_stroke: None,
            active_text_box: None,
        }
    }

    pub fn select_tool(&mut self, tool: ToolKind)
        ensures
            final(self).spec_active_tool() == tool,
            final(self).spec_same_objects(old(self)),
            final(self).spec_blur_options() == old(self).spec_blur_options(),
            final(self).spec_pen_options() == old(self).spec_pen_options(),
            final(self).spec_arrow_options() == old(self).spec_arrow_options(),
            final(self).spec_rectangle_options() == old(self).spec_rectangle_options(),
            final(self).spec_crop_options() == old(self).spec_crop_options(),
            final(self).spec_text_options() == old(self).spec_text_options(),
    {
        self.active_tool = tool;
    }

    pub fn active_tool(&self) -> (t: ToolKind)
        ensures
            t == self.spec_active_tool(),
    {
        self.active_tool
    }

    pub fn arrow_options(&self) -> (o: ArrowOptions)
        ensures
            o == self.spec_arrow_options(),
    {
        self.arrow_options
    }

    pub fn rectangle_options(&self) -> (o: RectangleOptions)
        ensures
            o == self.spec_rectangle_options(),
    {
        self.rectangle_options
    }

    pub fn crop_options(&self) -> (o: CropOptions)
        ensures
            o == self.spec_crop_options(),
    {
        self.crop_options
    }

    pub fn text_options(&self) -> (o: TextOptions)
        ensures
            o == self.spec_text_options(),
    {
        self.text_options
    }

    pub fn pen_options(&self) -> (o: PenOptions)
        ensures
            o == self.spec_pen_options(),
    {
        self.pen_options
    }

    pub fn blur_intensity(&self) -> (i: u8)
        ensures
            i == self.spec_blur_options().intensity,
    {
        self.blur_options.intensity
    }

    /// Sets the blur intensity, clamped into `[1, 100]`.
    pub fn set_blur_intensity(&mut self, intensity: u8)
        ensures
            final(self).spec_blur_options().intensity == crate::arith::spec_clamp(intensity as int, 1, 100),
            final(self).spec_same_objects(old(self)),
            final(self).spec_active_tool() == old(self).spec_active_tool(),
            final(self).spec_pen_options() == old(self).spec_pen_options(),
            final(self).spec_arrow_options() == old(self).spec_arrow_options(),
            final(self).spec_rectangle_options() == old(self).spec_rectangle_options(),
            final(self).spec_crop_options() == old(self).spec_crop_options(),
            final(self).spec_text_options() == old(self).spec_text_options(),
    {
        self.blur_options.set_intensity(intensity);
    }

    /// Sets the pen opacity, clamped into `[1, 100]`.
    pub fn set_pen_opacity(&mut self, opacity: u8)
        ensures
            final(self).spec_pen_options() == (PenOptions {
                opacity: crate::arith::spec_clamp(opacity as int, 1, 100) as u8,
                ..old(self).spec_pen_options()
            }),
            final(self).spec_same_objects(old(self)),
            final(self).spec_active_tool() == old(self).spec_active_tool(),
            final(self).spec_blur_options() == old(self).spec_blur_options(),
            final(self).spec_arrow_options() == old(self).spec_arrow_options(),
            final(self).spec_rectangle_options() == old(self).spec_rectangle_options(),
            final(self).spec_crop_options() == old(self).spec_crop_options(),
            final(self).spec_text_options() == old(self).spec_text_options(),
    {
        self.pen_options.set_opacity(opacity);
    }

    /// Sets the arrow head size; zero becomes one.
    pub fn set_arrow_head_size(&mut self, head_size: u8)
        ensures
            final(self).spec_arrow_options() == (ArrowOptions {
                head_size: if head_size == 0 { 1 } else { head_size },
                ..old(self).spec_arrow_options()
            }),
            final(self).spec_same_objects(old(self)),
            final(self).spec_active_tool() == old(self).spec_active_tool(),
            final(self).spec_blur_options() == old(self).spec_blur_options(),
            final(self).spec_pen_options() == old(self).spec_pen_options(),
            final(self).spec_rectangle_options() == old(self).spec_rectangle_options(),
            final(self).spec_crop_options() == old(self).spec_crop_options(),
            final(self).spec_text_options() == old(self).spec_text_options(),
    {
        self.arrow_options.set_head_size(head_size);
    }

    pub fn set_rectangle_border_radius(&mut self, border_radius: u16)
        ensures
            final(self).spec_rectangle_options() == (RectangleOptions {
                border_radius,
                ..old(self).spec_rectangle_options()
            }),
            final(self).spec_same_objects(old(self)),
            final(self).spec_active_tool() == old(self).spec_active_tool(),
            final(self).spec_blur_options() == old(self).spec_blur_options(),
            final(self).spec_pen_options() == old(self).spec_pen_options(),
            final(self).spec_arrow_options() == old(self).spec_arrow_options(),
            final(self).spec_crop_options() == old(self).spec_crop_options(),
            final(self).spec_text_options() == old(self).spec_text_options(),
    {
        self.rectangle_options.set_border_radius(border_radius);
    }

    pub fn set_rectangle_fill(&mut self, fill_enabled: bool)
        ensures
            final(self).spec_rectangle_options() == (RectangleOptions {
                fill_enabled,
                ..old(self).spec_rectangle_options()
            }),
            final(self).spec_same_objects(old(self)),
            final(self).spec_active_tool() == old(self).spec_active_tool(),
            final(self).spec_blur_options() == old(self).spec_blur_options(),
            final(self).spec_pen_options() == old(self).spec_pen_options(),
            final(self).spec_arrow_options() == old(self).spec_arrow_options(),
            final(self).spec_crop_options() == old(self).spec_crop_options(),
            final(self).spec_text_options() == old(self).spec_text_options(),
    {
        self.rectangle_options.set_fill_enabled(fill_enabled);
    }

    pub fn set_crop_preset(&mut self, preset: CropPreset)
        ensures
            final(self).spec_crop_options().preset == preset,
            final(self).spec_same_objects(old(self)),
            final(self).spec_active_tool() == old(self).spec_active_tool(),
            final(self).spec_blur_options() == old(self).spec_blur_options(),
            final(self).spec_pen_options() == old(self).spec_pen_options(),
            final(self).spec_arrow_options() == old(self).spec_arrow_options(),
            final(self).spec_rectangle_options() == old(self).spec_rectangle_options(),
            final(self).spec_text_options() == old(self).spec_text_options(),
    {
        self.crop_options.set_preset(preset);
    }

    /// Sets one color for the pen, the arrow, the rectangle border and text.
    pub fn set_shared_stroke_color(&mut self, color: Color)
        ensures
            final(self).spec_pen_options() == (PenOptions { color, ..old(self).spec_pen_options() }),
            final(self).spec_arrow_options() == (ArrowOptions {
                color,
                ..old(self).spec_arrow_options()
            }),
            final(self).spec_rectangle_options() == (RectangleOptions {
                border_color: color,
                ..old(self).spec_rectangle_options()
            }),
            final(self).spec_text_options() == (TextOptions {
                color,
                ..old(self).spec_text_options()
            }),
            final(self).spec_same_objects(old(self)),
            final(self).spec_active_tool() == old(self).spec_active_tool(),
            final(self).spec_blur_options() == old(self).spec_blur_options(),
            final(self).spec_crop_options() == old(self).spec_crop_options(),
    {
        self.pen_options.set_color(color);
        self.arrow_options.set_color(color);
        self.rectangle_options.set_border_color(color);
        self.text_options.set_color(color);
    }

    /// Sets one thickness for the pen, the arrow and the rectangle border; zero becomes one.
    pub fn set_shared_stroke_thickness(&mut self, thickness: u8)
        ensures
            final(self).spec_pen_options() == (PenOptions {
                thickness: if thickness == 0 { 1 } else { thickness },
                ..old(self).spec_pen_options()
            }),
            final(self).spec_arrow_options() == (ArrowOptions {
                thickness: if thickness == 0 { 1 } else { thickness },
                ..old(self).spec_arrow_options()
            }),
            final(self).spec_rectangle_options() == (RectangleOptions {
                thickness: if thickness == 0 { 1 } else { thickness },
                ..old(self).spec_rectangle_options()
            }),
            final(self).spec_same_objects(old(self)),
            final(self).spec_active_tool() == old(self).spec_active_tool(),
            final(self).spec_blur_options() == old(self).spec_blur_options(),
            final(self).spec_crop_options() == old(self).spec_crop_options(),
            final(self).spec_text_options() == old(self).spec_text_options(),
    {
        self.pen_options.set_thickness(thickness);
        self.arrow_options.set_thickness(thickness);
        self.rectangle_options.set_thickness(thickness);
    }

    /// Sets the text size; zero becomes one.
    pub fn set_text_size(&mut self, size: u8)
        ensures
            final(self).spec_text_options() == (TextOptions {
                size: if size == 0 { 1 } else { size },
                ..old(self).spec_text_options()
            }),
            final(self).spec_same_objects(old(self)),
            final(self).spec_active_tool() == old(self).spec_active_tool(),
            final(self).spec_blur_options() == old(self).spec_blur_options(),
            final(self).spec_pen_options() == old(self).spec_pen_options(),
            final(self).spec_arrow_options() == old(self).spec_arrow_options(),
            final(self).spec_rectangle_options() == old(self).spec_rectangle_options(),
            final(self).spec_crop_options() == old(self).spec_crop_options(),
    {
        self.text_options.set_size(size);
    }

    /// Sets the text weight, clamped into `[100, 1000]`.
    pub fn set_text_weight(&mut self, weight: u16)
        ensures
            final(self).spec_text_options() == (TextOptions {
                weight: crate::arith::spec_clamp(weight as int, 100, 1000) as u16,
                ..old(self).spec_text_options()
            }),
            final(self).spec_same_objects(old(self)),
            final(self).spec_active_tool() == old(self).spec_active_tool(),
            final(self).spec_blur_options() == old(self).spec_blur_options(),
            final(self).spec_pen_options() == old(self).spec_pen_options(),
            final(self).spec_arrow_options() == old(self).spec_arrow_options(),
            final(self).spec_rectangle_options() == old(self).spec_rectangle_options(),
            final(self).spec_crop_options() == old(self).spec_crop_options(),
    {
        self.text_options.set_weight(weight);
    }

    pub fn set_text_family(&mut self, family: TextFontFamily)
        ensures
            final(self).spec_text_options() == (TextOptions {
                family,
                ..old(self).spec_text_options()
            }),
            final(self).spec_same_objects(old(self)),
            final(self).spec_active_tool() == old(self).spec_active_tool(),
            final(self).spec_blur_options() == old(self).spec_blur_options(),
            final(self).spec_pen_options() == old(self).spec_pen_options(),
            final(self).spec_arrow_options() == old(self).spec_arrow_options(),
            final(self).spec_rectangle_options() == old(self).spec_rectangle_options(),
            final(self).spec_crop_options() == old(self).spec_crop_options(),
    {
        self.text_options.set_family(family);
    }

    /// The placed objects, bottom to top.
    pub fn objects(&self) -> (objects: &[ToolObject])
        ensures
            objects@ == self.spec_objects(),
    {
        self.objects.as_slice()
    }

    /// Hands out the next id; the counter saturates at the largest id.
    fn allocate_id(&mut self) -> (id: u64)
        ensures
            id == old(self).spec_next_id(),
            final(self).spec_next_id() == (if old(self).spec_next_id() == u64::MAX {
                u64::MAX
            } else {
                (old(self).spec_next_id() + 1) as u64
            }),
            final(self).spec_objects() == old(self).spec_objects(),
            final(self).spec_active_pen_stroke() == old(self).spec_active_pen_stroke(),
            final(self).spec_active_text_box() == old(self).spec_active_text_box(),
            final(self).spec_same_settings(old(self)),
    {
        let id = self.next_id;
        self.next_id = if self.next_id == u64::MAX { u64::MAX } else { self.next_id + 1 };
        id
    }
}

impl Default for EditorTools {
    fn default() -> (t: Self)
        ensures
            t.spec_objects() == Seq::<ToolObject>::empty(),
            t.spec_active_tool() == ToolKind::Select,
            t.spec_next_id() == 1,
    {
        Self::new()
    }
}

} // verus!

verus! {

/// The id counter after handing out `next`: one more, saturating at the largest id.
pub open spec fn spec_next(next: u64) -> u64 {
    if next == u64::MAX {
        u64::MAX
    } else {
        (next + 1) as u64
    }
}

/// `base * numerator / denominator`, rounded down and saturated to `u32`; zero for a zero
/// denominator.
pub open spec fn spec_scale_ratio_dimension(base: u32, numerator: u32, denominator: u32) -> u32 {
    if denominator == 0 {
        0
    } else {
        let scaled = (base as int * numerator as int) / (denominator as int);
        if scaled > u32::MAX {
            u32::MAX
        } else {
            scaled as u32
        }
    }
}

/// The largest box of ratio `ratio_x : ratio_y` that keeps one side of `width x height`:
/// full height when the matching width fits, full width otherwise.
pub open spec fn spec_adjust_ratio_to_fit(width: u32, height: u32, ratio_x: u32, ratio_y: u32) -> (
    u32,
    u32,
) {
    let target_w = spec_scale_ratio_dimension(height, ratio_x, ratio_y);
    let target_h = spec_scale_ratio_dimension(width, ratio_y, ratio_x);
    if target_w <= width {
        (target_w, height)
    } else {
        (width, target_h)
    }
}

pub fn scale_ratio_dimension(base: u32, numerator: u32, denominator: u32) -> (r: u32)
    ensures
        r == spec_scale_ratio_dimension(base, numerator, denominator),
{
    if denominator == 0 {
        0
    } else {
        assert(base as int * numerator as int <= 0xffff_ffff * 0xffff_ffff) by (nonlinear_arith)
            requires
                base <= 0xffff_ffff,
                numerator <= 0xffff_ffff,
                0 <= base,
                0 <= numerator,
        ;
        let product: u64 = base as u64 * numerator as u64;
        let scaled: u64 = product / denominator as u64;
        if scaled > u32::MAX as u64 {
            u32::MAX
        } else {
            scaled as u32
        }
    }
}

pub fn adjust_ratio_to_fit(width: u32, height: u32, ratio_x: u32, ratio_y: u32) -> (r: (u32, u32))
    ensures
        r == spec_adjust_ratio_to_fit(width, height, ratio_x, ratio_y),
{
    let target_w = scale_ratio_dimension(height, ratio_x, ratio_y);
    let target_h = scale_ratio_dimension(width, ratio_y, ratio_x);
    if target_w <= width {
        (target_w, height)
    } else {
        (width, target_h)
    }
}

proof fn lemma_floor_div(a: int, d: int)
    requires
        a >= 0,
        d > 0,
    ensures
        a / d >= 0,
        d * (a / d) <= a < d * (a / d) + d,
{
    vstd::arithmetic::div_mod::lemma_fundamental_div_mod(a, d);
    vstd::arithmetic::div_mod::lemma_mod_pos_bound(a, d);
    vstd::arithmetic::div_mod::lemma_div_pos_is_pos(a, d);
}

/// Fitting a box to a ratio keeps the ratio up to rounding: the fitted box lies within the
/// given one, and either keeps its full height with the width `height * rx / ry` rounded
/// down, or keeps its full width with the height `width * ry / rx` rounded down. So
/// `fitted width * ry` and `fitted height * rx` differ by less than one step of the ratio.
pub proof fn lemma_adjust_ratio_to_fit_keeps_ratio(width: u32, height: u32, ratio_x: u32, ratio_y: u32)
    requires
        ratio_x > 0,
        ratio_y > 0,
        width < u32::MAX,
    ensures
        ({
            let (w, h) = spec_adjust_ratio_to_fit(width, height, ratio_x, ratio_y);
            &&& w <= width
            &&& h <= height
            &&& (h == height && w * ratio_y <= h * ratio_x < (w + 1) * ratio_y) || (w == width && h
                * ratio_x <= w * ratio_y < (h + 1) * ratio_x)
        }),
{
    let a = height as int * ratio_x as int;
    let b = width as int * ratio_y as int;
    assert(a >= 0 && b >= 0) by (nonlinear_arith)
        requires
            a == height as int * ratio_x as int,
            b == width as int * ratio_y as int,
            height >= 0,
            ratio_x >= 0,
            width >= 0,
            ratio_y >= 0,
    ;
    lemma_floor_div(a, ratio_y as int);
    lemma_floor_div(b, ratio_x as int);
    let qa = a / (ratio_y as int);
    let qb = b / (ratio_x as int);
    let target_w = spec_scale_ratio_dimension(height, ratio_x, ratio_y);
    if target_w <= width {
        assert(target_w == qa);
        assert(qa * ratio_y <= a < (qa + 1) * ratio_y) by (nonlinear_arith)
            requires
                ratio_y * qa <= a < ratio_y * qa + ratio_y,
        ;
    } else {
        assert(qa >= width + 1);
        assert(a >= (width + 1) * ratio_y) by (nonlinear_arith)
            requires
                ratio_y * qa <= a,
                qa >= width + 1,
                ratio_y > 0,
        ;
        assert(qb < height) by (nonlinear_arith)
            requires
                ratio_x * qb <= b,
                b == width * ratio_y,
                a == height * ratio_x,
                a >= (width + 1) * ratio_y,
                ratio_y > 0,
                ratio_x > 0,
        ;
        assert(qb * ratio_x <= b < (qb + 1) * ratio_x) by (nonlinear_arith)
            requires
                ratio_x * qb <= b < ratio_x * qb + ratio_x,
        ;
    }
}

/// An id handed out while every object's id is below the counter is held by no object.
pub proof fn lemma_next_id_is_fresh(tools: &EditorTools)
    requires
        tools.spec_ids_below_next(),
    ensures
        spec_find(tools.spec_objects(), tools.spec_next_id()) is None,
{
    lemma_index_of(tools.spec_objects(), tools.spec_next_id());
    if spec_index_of(tools.spec_objects(), tools.spec_next_id()) != -1 {
        let i = spec_index_of(tools.spec_objects(), tools.spec_next_id());
        assert(tools.spec_objects()[i].spec_id() < tools.spec_next_id());
    }
}

/// Every object's id is below the counter `next`, and no two objects share an id.
pub open spec fn spec_ids_fresh(objects: Seq<ToolObject>, next: u64) -> bool {
    &&& forall|i: int| 0 <= i < objects.len() ==> #[trigger] objects[i].spec_id() < next
    &&& forall|i: int, j: int|
        0 <= i < j < objects.len() ==> #[trigger] objects[i].spec_id() != #[trigger] objects[j].spec_id()
}

/// Placing an object under the counter's id and advancing the counter, as every `add_*`
/// and `begin_pen_stroke` does, keeps the ids below the counter and distinct, as long as the
/// counter has not reached its largest value.
pub proof fn lemma_placing_keeps_ids_distinct(objects: Seq<ToolObject>, next: u64, object: ToolObject)
    requires
        spec_ids_fresh(objects, next),
        object.spec_id() == next,
        next < u64::MAX,
    ensures
        spec_ids_fresh(objects.push(object), spec_next(next)),
{
    let extended = objects.push(object);
    assert forall|i: int| 0 <= i < extended.len() implies #[trigger] extended[i].spec_id() < spec_next(
        next,
    ) by {
        if i < objects.len() {
            assert(extended[i] == objects[i]);
        }
    }
    assert forall|i: int, j: int| 0 <= i < j < extended.len() implies #[trigger] extended[i].spec_id()
        != #[trigger] extended[j].spec_id() by {
        assert(extended[i] == objects[i]);
        if j < objects.len() {
            assert(extended[j] == objects[j]);
        }
    }
}

/// Taking an object off the canvas, as `remove_object` does, keeps the ids fresh.
pub proof fn lemma_removing_keeps_ids_distinct(objects: Seq<ToolObject>, next: u64, i: int)
    requires
        spec_ids_fresh(objects, next),
        0 <= i < objects.len(),
    ensures
        spec_ids_fresh(objects.remove(i), next),
{
    let r = objects.remove(i);
    assert forall|k: int| 0 <= k < r.len() implies #[trigger] r[k].spec_id() < next by {
        if k < i {
            assert(r[k] == objects[k]);
        } else {
            assert(r[k] == objects[k + 1]);
        }
    }
    assert forall|a: int, b: int| 0 <= a < b < r.len() implies #[trigger] r[a].spec_id()
        != #[trigger] r[b].spec_id() by {
        let a0 = if a < i { a } else { a + 1 };
        let b0 = if b < i { b } else { b + 1 };
        assert(r[a] == objects[a0]);
        assert(r[b] == objects[b0]);
    }
}

} // verus!
