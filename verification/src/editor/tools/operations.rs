//! Placing new objects and drawing pen strokes.

use vstd::prelude::*;

use super::{
    adjust_ratio_to_fit, lemma_adjust_ratio_to_fit_keeps_ratio, lemma_index_of, spec_adjust_ratio_to_fit, spec_find, spec_index_of, spec_next,
    ArrowElement, BlurElement, BlurRegion, CropElement, CropPreset, EditorTools, PenPoint,
    PenStroke, RectangleElement, TextElement, ToolError, ToolKind, ToolObject, ToolPoint,
    CROP_MIN_SIZE,
};
use crate::arith::{spec_clamp, spec_max, spec_min};

verus! {

/// `b` is `a` with only position `i` possibly changed.
pub open spec fn spec_unchanged_except(a: Seq<ToolObject>, b: Seq<ToolObject>, i: int) -> bool {
    &&& a.len() == b.len()
    &&& forall|j: int| 0 <= j < a.len() && j != i ==> #[trigger] b[j] == a[j]
}

/// The box spanned by two corners: top-left corner, width and height.
pub open spec fn spec_span(start: ToolPoint, end: ToolPoint) -> (int, int, int, int) {
    let x = spec_min(start.x as int, end.x as int);
    let y = spec_min(start.y as int, end.y as int);
    let w = spec_max(start.x as int, end.x as int) - x;
    let h = spec_max(start.y as int, end.y as int) - y;
    (x, y, w, h)
}

/// The crop box that dragging from `start` to `end` produces on an image of the given size:
/// the spanned box clipped to the image, then fitted to the preset's ratio.
pub open spec fn spec_crop_box(
    start: ToolPoint,
    end: ToolPoint,
    image_width: i32,
    image_height: i32,
    preset: CropPreset,
) -> (int, int, int, int) {
    let w_max = spec_max(image_width as int, 0);
    let h_max = spec_max(image_height as int, 0);
    let left = spec_clamp(spec_min(start.x as int, end.x as int), 0, w_max);
    let right = spec_clamp(spec_max(start.x as int, end.x as int), 0, w_max);
    let top = spec_clamp(spec_min(start.y as int, end.y as int), 0, h_max);
    let bottom = spec_clamp(spec_max(start.y as int, end.y as int), 0, h_max);
    let width = right - left;
    let height = bottom - top;
    match super::crop::spec_resolve_ratio(preset, w_max as u32, h_max as u32) {
        Some((rx, ry)) => {
            let fitted = spec_adjust_ratio_to_fit(width as u32, height as u32, rx, ry);
            (left, top, fitted.0 as int, fitted.1 as int)
        },
        None => (left, top, width, height),
    }
}

/// A crop box dragged with a preset keeps the preset's ratio: 16:9 gives `(16, 9)`, 1:1
/// gives `(1, 1)`, 9:16 gives `(9, 16)`, the original ratio that of the image and the free
/// preset none. With a ratio `rx : ry` the box starts at the dragged box's corner, lies
/// within it, and keeps either its full height with width `height * rx / ry` rounded down,
/// or its full width with height `width * ry / rx` rounded down; so a 16:9 box is wider
/// than tall. Without a ratio the dragged box is kept as it is.
pub proof fn lemma_crop_box_keeps_preset_ratio(
    start: ToolPoint,
    end: ToolPoint,
    image_width: i32,
    image_height: i32,
    preset: CropPreset,
)
    ensures
        ({
            let w_max = spec_max(image_width as int, 0);
            let h_max = spec_max(image_height as int, 0);
            let left = spec_clamp(spec_min(start.x as int, end.x as int), 0, w_max);
            let top = spec_clamp(spec_min(start.y as int, end.y as int), 0, h_max);
            let width = spec_clamp(spec_max(start.x as int, end.x as int), 0, w_max) - left;
            let height = spec_clamp(spec_max(start.y as int, end.y as int), 0, h_max) - top;
            let b = spec_crop_box(start, end, image_width, image_height, preset);
            let ratio = super::crop::spec_resolve_ratio(preset, w_max as u32, h_max as u32);
            &&& preset == CropPreset::Ratio16x9 ==> ratio == Some((16u32, 9u32))
            &&& preset == CropPreset::Ratio1x1 ==> ratio == Some((1u32, 1u32))
            &&& preset == CropPreset::Ratio9x16 ==> ratio == Some((9u32, 16u32))
            &&& preset == CropPreset::Free ==> ratio is None
            &&& preset == CropPreset::Original ==> ratio == Some(
                (
                    (if w_max == 0 {
                        1
                    } else {
                        w_max
                    }) as u32,
                    (if h_max == 0 {
                        1
                    } else {
                        h_max
                    }) as u32,
                ),
            )
            &&& b.0 == left && b.1 == top
            &&& match ratio {
                Some((rx, ry)) => {
                    &&& 0 <= b.2 <= width
                    &&& 0 <= b.3 <= height
                    &&& (b.3 == height && b.2 * ry <= b.3 * rx < (b.2 + 1) * ry) || (b.2 == width && b.3
                        * rx <= b.2 * ry < (b.3 + 1) * rx)
                },
                None => b.2 == width && b.3 == height,
            }
        }),
{
    let w_max = spec_max(image_width as int, 0);
    let h_max = spec_max(image_height as int, 0);
    let left = spec_clamp(spec_min(start.x as int, end.x as int), 0, w_max);
    let top = spec_clamp(spec_min(start.y as int, end.y as int), 0, h_max);
    let width = spec_clamp(spec_max(start.x as int, end.x as int), 0, w_max) - left;
    let height = spec_clamp(spec_max(start.y as int, end.y as int), 0, h_max) - top;
    assert(0 <= width <= w_max <= i32::MAX);
    assert(0 <= height <= h_max <= i32::MAX);
    match super::crop::spec_resolve_ratio(preset, w_max as u32, h_max as u32) {
        Some((rx, ry)) => {
            lemma_adjust_ratio_to_fit_keeps_ratio(width as u32, height as u32, rx, ry);
        },
        None => {},
    }
}

impl EditorTools {
    /// Places a blur over `region`; a region without area is refused.
    pub fn add_blur(&mut self, region: BlurRegion) -> (result: Result<u64, ToolError>)
        ensures
            (region.width == 0 || region.height == 0) <==> result == Err::<u64, ToolError>(
                ToolError::InvalidBlurRegion,
            ),
            result is Err ==> *final(self) == *old(self) && result == Err::<u64, ToolError>(
                ToolError::InvalidBlurRegion,
            ),
            result is Ok ==> {
                &&& result->Ok_0 == old(self).spec_next_id()
                &&& final(self).spec_objects() == old(self).spec_objects().push(
                    ToolObject::Blur(
                        BlurElement {
                            id: result->Ok_0,
                            region,
                            anchor: ToolPoint { x: region.x, y: region.y },
                            options: old(self).spec_blur_options(),
                        },
                    ),
                )
                &&& final(self).spec_next_id() == spec_next(old(self).spec_next_id())
                &&& final(self).spec_active_pen_stroke() == old(self).spec_active_pen_stroke()
                &&& final(self).spec_active_text_box() == old(self).spec_active_text_box()
                &&& final(self).spec_same_settings(old(self))
            },
    {
        if region.width == 0 || region.height == 0 {
            return Err(ToolError::InvalidBlurRegion);
        }
        let id = self.allocate_id();
        self.objects.push(
            ToolObject::Blur(
                BlurElement {
                    id,
                    region,
                    anchor: ToolPoint::new(region.x, region.y),
                    options: self.blur_options,
                },
            ),
        );
        Ok(id)
    }

    /// Places an arrow from `start` to `end`; an arrow of no length is refused.
    pub fn add_arrow(&mut self, start: ToolPoint, end: ToolPoint) -> (result: Result<
        u64,
        ToolError,
    >)
        ensures
            (start == end) <==> result == Err::<u64, ToolError>(ToolError::InvalidArrowGeometry),
            result is Err ==> *final(self) == *old(self) && result == Err::<u64, ToolError>(
                ToolError::InvalidArrowGeometry,
            ),
            result is Ok ==> {
                &&& result->Ok_0 == old(self).spec_next_id()
                &&& final(self).spec_objects() == old(self).spec_objects().push(
                    ToolObject::Arrow(
                        ArrowElement {
                            id: result->Ok_0,
                            start,
                            end,
                            options: old(self).spec_arrow_options(),
                        },
                    ),
                )
                &&& final(self).spec_next_id() == spec_next(old(self).spec_next_id())
                &&& final(self).spec_active_pen_stroke() == old(self).spec_active_pen_stroke()
                &&& final(self).spec_active_text_box() == old(self).spec_active_text_box()
                &&& final(self).spec_same_settings(old(self))
            },
    {
        if start == end {
            return Err(ToolError::InvalidArrowGeometry);
        }
        let id = self.allocate_id();
        self.objects.push(ToolObject::Arrow(ArrowElement::new(id, start, end, self.arrow_options)));
        Ok(id)
    }

    /// Places the rectangle spanned by `start` and `end`; one without area is refused.
    pub fn add_rectangle(&mut self, start: ToolPoint, end: ToolPoint) -> (result: Result<
        u64,
        ToolError,
    >)
        ensures
            (start.x == end.x || start.y == end.y) <==> result == Err::<u64, ToolError>(
                ToolError::InvalidRectangleGeometry,
            ),
            result is Err ==> *final(self) == *old(self) && result == Err::<u64, ToolError>(
                ToolError::InvalidRectangleGeometry,
            ),
            result is Ok ==> {
                &&& result->Ok_0 == old(self).spec_next_id()
                &&& final(self).spec_objects() == old(self).spec_objects().push(
                    ToolObject::Rectangle(
                        RectangleElement {
                            id: result->Ok_0,
                            x: spec_span(start, end).0 as i32,
                            y: spec_span(start, end).1 as i32,
                            width: spec_span(start, end).2 as u32,
                            height: spec_span(start, end).3 as u32,
                            options: old(self).spec_rectangle_options(),
                        },
                    ),
                )
                &&& final(self).spec_next_id() == spec_next(old(self).spec_next_id())
                &&& final(self).spec_active_pen_stroke() == old(self).spec_active_pen_stroke()
                &&& final(self).spec_active_text_box() == old(self).spec_active_text_box()
                &&& final(self).spec_same_settings(old(self))
            },
    {
        if start.x == end.x || start.y == end.y {
            return Err(ToolError::InvalidRectangleGeometry);
        }
        let x = if start.x < end.x { start.x } else { end.x };
        let y = if start.y < end.y { start.y } else { end.y };
        let right = if start.x < end.x { end.x } else { start.x };
        let bottom = if start.y < end.y { end.y } else { start.y };
        let width = (right as i64 - x as i64) as u32;
        let height = (bottom as i64 - y as i64) as u32;
        let id = self.allocate_id();
        self.objects.push(
            ToolObject::Rectangle(
                RectangleElement { id, x, y, width, height, options: self.rectangle_options },
            ),
        );
        Ok(id)
    }

    /// Places a crop box dragged from `start` to `end` on an image of the given size.
    /// The box is clipped to the image, fitted to the preset's ratio, and refused when a
    /// side ends up below the minimum crop size.
    pub fn add_crop_in_bounds(
        &mut self,
        start: ToolPoint,
        end: ToolPoint,
        image_width: i32,
        image_height: i32,
    ) -> (result: Result<u64, ToolError>)
        ensures
            ({
                let b = spec_crop_box(
                    start,
                    end,
                    image_width,
                    image_height,
                    old(self).spec_crop_options().preset,
                );
                &&& (b.2 < CROP_MIN_SIZE || b.3 < CROP_MIN_SIZE) <==> result == Err::<
                    u64,
                    ToolError,
                >(ToolError::InvalidCropGeometry)
                &&& result is Ok ==> final(self).spec_objects() == old(self).spec_objects().push(
                    ToolObject::Crop(
                        CropElement {
                            id: result->Ok_0,
                            x: b.0 as i32,
                            y: b.1 as i32,
                            width: b.2 as u32,
                            height: b.3 as u32,
                            options: old(self).spec_crop_options(),
                        },
                    ),
                )
            }),
            result is Err ==> *final(self) == *old(self) && result == Err::<u64, ToolError>(
                ToolError::InvalidCropGeometry,
            ),
            result is Ok ==> {
                &&& result->Ok_0 == old(self).spec_next_id()
                &&& final(self).spec_next_id() == spec_next(old(self).spec_next_id())
                &&& final(self).spec_active_pen_stroke() == old(self).spec_active_pen_stroke()
                &&& final(self).spec_active_text_box() == old(self).spec_active_text_box()
                &&& final(self).spec_same_settings(old(self))
            },
    {
        let w_max: i32 = if image_width > 0 { image_width } else { 0 };
        let h_max: i32 = if image_height > 0 { image_height } else { 0 };
        let min_x = if start.x < end.x { start.x } else { end.x };
        let max_x = if start.x < end.x { end.x } else { start.x };
        let min_y = if start.y < end.y { start.y } else { end.y };
        let max_y = if start.y < end.y { end.y } else { start.y };
        let left = crate::arith::clamp_i32(min_x, 0, w_max);
        let right = crate::arith::clamp_i32(max_x, 0, w_max);
        let top = crate::arith::clamp_i32(min_y, 0, h_max);
        let bottom = crate::arith::clamp_i32(max_y, 0, h_max);
        let mut width = (right - left) as u32;
        let mut height = (bottom - top) as u32;
        match self.crop_options.preset.resolve_ratio(w_max as u32, h_max as u32) {
            Some((ratio_x, ratio_y)) => {
                let fitted = adjust_ratio_to_fit(width, height, ratio_x, ratio_y);
                width = fitted.0;
                height = fitted.1;
            },
            None => {},
        }
        if width < CROP_MIN_SIZE || height < CROP_MIN_SIZE {
            return Err(ToolError::InvalidCropGeometry);
        }
        let id = self.allocate_id();
        self.objects.push(
            ToolObject::Crop(CropElement::new(id, left, top, width, height, self.crop_options)),
        );
        Ok(id)
    }

    /// Places an empty text box at `anchor` and gives it keyboard focus.
    pub fn add_text_box(&mut self, anchor: ToolPoint) -> (id: u64)
        ensures
            id == old(self).spec_next_id(),
            final(self).spec_objects().len() == old(self).spec_objects().len() + 1,
            final(self).spec_objects().drop_last() == old(self).spec_objects(),
            final(self).spec_objects().last() matches ToolObject::Text(t) && t.id == id && t.x
                == anchor.x && t.y == anchor.y && t.content@ == Seq::<char>::empty()
                && t.cursor_chars == 0 && t.options == old(self).spec_text_options(),
            final(self).spec_next_id() == spec_next(old(self).spec_next_id()),
            final(self).spec_active_pen_stroke() == old(self).spec_active_pen_stroke(),
            final(self).spec_active_text_box() == Some(id),
            final(self).spec_same_settings(old(self)),
    {
        let id = self.allocate_id();
        self.objects.push(ToolObject::Text(TextElement::new(id, anchor, self.text_options)));
        self.active_text_box = Some(id);
        proof {
            assert(self.objects@.drop_last() =~= old(self).objects@);
        }
        id
    }

    /// Starts a pen stroke at `start` with the current pen options.
    pub fn begin_pen_stroke(&mut self, start: ToolPoint) -> (id: u64)
        ensures
            id == old(self).spec_next_id(),
            final(self).spec_objects().len() == old(self).spec_objects().len() + 1,
            final(self).spec_objects().drop_last() == old(self).spec_objects(),
            final(self).spec_objects().last() matches ToolObject::Pen(s) && s.id == id
                && s.points@ == seq![PenPoint { x: start.x, y: start.y }] && s.options
                == old(self).spec_pen_options() && !s.finalized,
            final(self).spec_next_id() == spec_next(old(self).spec_next_id()),
            final(self).spec_active_pen_stroke() == Some(id),
            final(self).spec_active_text_box() == old(self).spec_active_text_box(),
            final(self).spec_same_settings(old(self)),
    {
        let id = self.allocate_id();
        self.objects.push(
            ToolObject::Pen(PenStroke::new(id, PenPoint::new(start.x, start.y), self.pen_options)),
        );
        self.active_pen_stroke = Some(id);
        proof {
            assert(self.objects@.drop_last() =~= old(self).objects@);
        }
        id
    }

    /// Adds `point` to the end of the stroke with `id`; fails when the object with that id
    /// is not a pen stroke.
    pub fn append_pen_point(&mut self, id: u64, point: ToolPoint) -> (result: Result<(), ToolError>)
        ensures
            result is Ok <==> spec_find(old(self).spec_objects(), id) matches Some(ToolObject::Pen(_)),
            result is Err ==> result == Err::<(), ToolError>(ToolError::PenStrokeNotFound)
                && *final(self) == *old(self),
            result is Ok ==> {
                let i = spec_index_of(old(self).spec_objects(), id);
                &&& spec_unchanged_except(old(self).spec_objects(), final(self).spec_objects(), i)
                &&& old(self).spec_objects()[i] matches ToolObject::Pen(before)
                &&& final(self).spec_objects()[i] matches ToolObject::Pen(after)
                &&& after.points@ == before.points@.push(PenPoint { x: point.x, y: point.y })
                &&& after.id == before.id && after.options == before.options && after.finalized
                    == before.finalized
                &&& final(self).spec_next_id() == old(self).spec_next_id()
                &&& final(self).spec_active_pen_stroke() == old(self).spec_active_pen_stroke()
                &&& final(self).spec_active_text_box() == old(self).spec_active_text_box()
                &&& final(self).spec_same_settings(old(self))
            },
    {
        proof {
            lemma_index_of(self.objects@, id);
        }
        let index = match self.index_of(id) {
            Some(i) => i,
            None => return Err(ToolError::PenStrokeNotFound),
        };
        match &self.objects[index] {
            ToolObject::Pen(_) => {},
            _ => return Err(ToolError::PenStrokeNotFound),
        }
        let mut object = self.objects.remove(index);
        match &mut object {
            ToolObject::Pen(stroke) => stroke.append_point(PenPoint::new(point.x, point.y)),
            _ => {},
        }
        self.objects.insert(index, object);
        proof {
            assert forall|j: int| 0 <= j < old(self).objects@.len() && j != index implies #[trigger] self.objects@[j] == old(self).objects@[j] by {
            }
        }
        Ok(())
    }

    /// Marks the stroke with `id` as finished and ends it as the stroke being drawn.
    /// Fails when the object with that id is not a pen stroke, or the stroke has no points.
    pub fn finish_pen_stroke(&mut self, id: u64) -> (result: Result<(), ToolError>)
        ensures
            !(spec_find(old(self).spec_objects(), id) matches Some(ToolObject::Pen(_)))
                ==> result == Err::<(), ToolError>(ToolError::PenStrokeNotFound),
            spec_find(old(self).spec_objects(), id) matches Some(ToolObject::Pen(s)) ==> (
            s.points@.len() == 0 <==> result == Err::<(), ToolError>(ToolError::EmptyPenStroke)),
            result is Ok <==> (spec_find(old(self).spec_objects(), id) matches Some(ToolObject::Pen(s))
                && s.points@.len() > 0),
            result is Err ==> *final(self) == *old(self),
            result is Ok ==> {
                let i = spec_index_of(old(self).spec_objects(), id);
                &&& spec_unchanged_except(old(self).spec_objects(), final(self).spec_objects(), i)
                &&& old(self).spec_objects()[i] matches ToolObject::Pen(before)
                &&& final(self).spec_objects()[i] matches ToolObject::Pen(after)
                &&& after.points@ == before.points@ && after.finalized
                &&& after.id == before.id && after.options == before.options
                &&& final(self).spec_next_id() == old(self).spec_next_id()
                &&& final(self).spec_active_pen_stroke() == (if old(self).spec_active_pen_stroke()
                    == Some(id) {
                    None
                } else {
                    old(self).spec_active_pen_stroke()
                })
                &&& final(self).spec_active_text_box() == old(self).spec_active_text_box()
                &&& final(self).spec_same_settings(old(self))
            },
    {
        proof {
            lemma_index_of(self.objects@, id);
        }
        let index = match self.index_of(id) {
            Some(i) => i,
            None => return Err(ToolError::PenStrokeNotFound),
        };
        match &self.objects[index] {
            ToolObject::Pen(stroke) => {
                if stroke.points.len() == 0 {
                    return Err(ToolError::EmptyPenStroke);
                }
            },
            _ => return Err(ToolError::PenStrokeNotFound),
        }
        let mut object = self.objects.remove(index);
        match &mut object {
            ToolObject::Pen(stroke) => stroke.finalize(),
            _ => {},
        }
        self.objects.insert(index, object);
        if self.active_pen_stroke == Some(id) {
            self.active_pen_stroke = None;
        }
        proof {
            assert forall|j: int| 0 <= j < old(self).objects@.len() && j != index implies #[trigger] self.objects@[j] == old(self).objects@[j] by {
            }
        }
        Ok(())
    }
}

} // verus!
