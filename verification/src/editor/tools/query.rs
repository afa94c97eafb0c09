//! Looking objects up by id and listing them by kind.

use vstd::prelude::*;

use super::{
    spec_crops, spec_find, spec_find_kind, spec_index_from, spec_index_of, spec_kind_index_from,
    spec_kind_index_of, spec_object_kind, lemma_index_of, lemma_kind_index_of, ArrowElement, BlurElement,
    CropElement, EditorTools, PenStroke, RectangleElement, TextElement, ToolKind, ToolObject,
};

verus! {

impl EditorTools {
    /// Position of the first object with `id`.
    pub(crate) fn index_of(&self, id: u64) -> (index: Option<usize>)
        ensures
            match index {
                Some(i) => i == spec_index_of(self.spec_objects(), id),
                None => spec_index_of(self.spec_objects(), id) == -1,
            },
    {
        let mut i: usize = 0;
        while i < self.objects.len()
            invariant
                0 <= i <= self.objects.len(),
                spec_index_from(self.objects@, id, i as int) == spec_index_of(self.objects@, id),
            decreases self.objects.len() - i,
        {
            if self.objects[i].id() == id {
                return Some(i);
            }
            i = i + 1;
        }
        None
    }

    /// Whether `object` is drawn by `kind`.
    fn is_of_kind(object: &ToolObject, kind: ToolKind) -> (b: bool)
        ensures
            b == (spec_object_kind(*object) == kind),
    {
        match (object, kind) {
            (ToolObject::Blur(_), ToolKind::Blur) => true,
            (ToolObject::Pen(_), ToolKind::Pen) => true,
            (ToolObject::Arrow(_), ToolKind::Arrow) => true,
            (ToolObject::Rectangle(_), ToolKind::Rectangle) => true,
            (ToolObject::Crop(_), ToolKind::Crop) => true,
            (ToolObject::Text(_), ToolKind::Text) => true,
            _ => false,
        }
    }

    /// Position of the first object with `id` that `kind` draws.
    pub(crate) fn kind_index_of(&self, id: u64, kind: ToolKind) -> (index: Option<usize>)
        ensures
            match index {
                Some(i) => i == spec_kind_index_of(self.spec_objects(), id, kind),
                None => spec_kind_index_of(self.spec_objects(), id, kind) == -1,
            },
    {
        let mut i: usize = 0;
        while i < self.objects.len()
            invariant
                0 <= i <= self.objects.len(),
                spec_kind_index_from(self.objects@, id, kind, i as int) == spec_kind_index_of(self.objects@, id, kind),
            decreases self.objects.len() - i,
        {
            if self.objects[i].id() == id && Self::is_of_kind(&self.objects[i], kind) {
                return Some(i);
            }
            i = i + 1;
        }
        None
    }

    /// The first object with `id` that `kind` draws, if any.
    fn object_of_kind(&self, id: u64, kind: ToolKind) -> (object: Option<&ToolObject>)
        ensures
            match object {
                Some(o) => spec_find_kind(self.spec_objects(), id, kind) == Some(*o),
                None => spec_find_kind(self.spec_objects(), id, kind) is None,
            },
    {
        proof {
            lemma_kind_index_of(self.objects@, id, kind);
        }
        match self.kind_index_of(id, kind) {
            Some(i) => Some(&self.objects[i]),
            None => None,
        }
    }

    /// The object with `id`, if any.
    pub fn object(&self, id: u64) -> (object: Option<&ToolObject>)
        ensures
            match object {
                Some(o) => spec_find(self.spec_objects(), id) == Some(*o),
                None => spec_find(self.spec_objects(), id) is None,
            },
    {
        proof {
            lemma_index_of(self.objects@, id);
        }
        match self.index_of(id) {
            Some(i) => Some(&self.objects[i]),
            None => None,
        }
    }

    /// The crop box with `id`; `None` when the object with that id is not a crop box.
    pub fn get_crop(&self, id: u64) -> (crop: Option<&CropElement>)
        ensures
            match spec_find_kind(self.spec_objects(), id, ToolKind::Crop) {
                Some(ToolObject::Crop(c)) => crop == Some(&c),
                _ => crop is None,
            },
    {
        match self.object_of_kind(id, ToolKind::Crop) {
            Some(object) => object.as_crop(),
            None => None,
        }
    }

    /// The text box with `id`; `None` when the object with that id is not a text box.
    pub fn get_text(&self, id: u64) -> (text: Option<&TextElement>)
        ensures
            match spec_find_kind(self.spec_objects(), id, ToolKind::Text) {
                Some(ToolObject::Text(t)) => text == Some(&t),
                _ => text is None,
            },
    {
        match self.object_of_kind(id, ToolKind::Text) {
            Some(object) => object.as_text(),
            None => None,
        }
    }

    /// The text box with `id`, for editing in place; `None` when the object with that id is
    /// not a text box. What is written through the reference lands in that object only.
    pub fn get_text_mut(&mut self, id: u64) -> (text: Option<&mut TextElement>)
        ensures
            (spec_find_kind(old(self).spec_objects(), id, ToolKind::Text) is Some) <==> text is Some,
            text is None ==> *final(self) == *old(self),
            text matches Some(t) ==> {
                let i = spec_kind_index_of(old(self).spec_objects(), id, ToolKind::Text);
                &&& old(self).spec_objects()[i] == ToolObject::Text(*t)
                &&& final(self).spec_objects() == old(self).spec_objects().update(
                    i,
                    ToolObject::Text(*final(t)),
                )
                &&& final(self).spec_next_id() == old(self).spec_next_id()
                &&& final(self).spec_active_pen_stroke() == old(self).spec_active_pen_stroke()
                &&& final(self).spec_active_text_box() == old(self).spec_active_text_box()
                &&& final(self).spec_same_settings(old(self))
            },
    {
        proof {
            lemma_kind_index_of(self.objects@, id, ToolKind::Text);
        }
        let index = match self.kind_index_of(id, ToolKind::Text) {
            Some(i) => i,
            None => return None,
        };
        match &self.objects[index] {
            ToolObject::Text(_) => {},
            _ => return None,
        }
        match &mut self.objects[index] {
            ToolObject::Text(text) => Some(text),
            _ => None,
        }
    }

    /// The blur with `id`; `None` when the object with that id is not a blur.
    pub fn get_blur(&self, id: u64) -> (blur: Option<&BlurElement>)
        ensures
            match spec_find_kind(self.spec_objects(), id, ToolKind::Blur) {
                Some(ToolObject::Blur(b)) => blur == Some(&b),
                _ => blur is None,
            },
    {
        match self.object_of_kind(id, ToolKind::Blur) {
            Some(object) => object.as_blur(),
            None => None,
        }
    }

    /// The pen stroke with `id`; `None` when the object with that id is not a stroke.
    pub fn get_pen_stroke(&self, id: u64) -> (stroke: Option<&PenStroke>)
        ensures
            match spec_find_kind(self.spec_objects(), id, ToolKind::Pen) {
                Some(ToolObject::Pen(p)) => stroke == Some(&p),
                _ => stroke is None,
            },
    {
        match self.object_of_kind(id, ToolKind::Pen) {
            Some(object) => object.as_pen(),
            None => None,
        }
    }

    /// The arrow with `id`; `None` when the object with that id is not an arrow.
    pub fn get_arrow(&self, id: u64) -> (arrow: Option<&ArrowElement>)
        ensures
            match spec_find_kind(self.spec_objects(), id, ToolKind::Arrow) {
                Some(ToolObject::Arrow(a)) => arrow == Some(&a),
                _ => arrow is None,
            },
    {
        match self.object_of_kind(id, ToolKind::Arrow) {
            Some(object) => object.as_arrow(),
            None => None,
        }
    }

    /// The rectangle with `id`; `None` when the object with that id is not a rectangle.
    pub fn get_rectangle(&self, id: u64) -> (rectangle: Option<&RectangleElement>)
        ensures
            match spec_find_kind(self.spec_objects(), id, ToolKind::Rectangle) {
                Some(ToolObject::Rectangle(r)) => rectangle == Some(&r),
                _ => rectangle is None,
            },
    {
        match self.object_of_kind(id, ToolKind::Rectangle) {
            Some(object) => object.as_rectangle(),
            None => None,
        }
    }

    /// All crop boxes, bottom to top.
    pub fn crops(&self) -> (crops: Vec<CropElement>)
        ensures
            crops@ == spec_crops(self.spec_objects()),
    {
        let mut crops: Vec<CropElement> = Vec::new();
        let mut i: usize = 0;
        while i < self.objects.len()
            invariant
                0 <= i <= self.objects.len(),
                crops@ == spec_crops(self.objects@.subrange(0, i as int)),
            decreases self.objects.len() - i,
        {
            assert(self.objects@.subrange(0, i + 1).drop_last() =~= self.objects@.subrange(
                0,
                i as int,
            ));
            match &self.objects[i] {
                ToolObject::Crop(crop) => crops.push(*crop),
                _ => {},
            }
            i = i + 1;
        }
        assert(self.objects@.subrange(0, i as int) =~= self.objects@);
        crops
    }

    /// The id of the text box taking keyboard input.
    pub fn active_text_id(&self) -> (id: Option<u64>)
        ensures
            id == self.spec_active_text_box(),
    {
        self.active_text_box
    }

    /// The text box taking keyboard input, when it still exists.
    pub fn active_text(&self) -> (text: Option<&TextElement>)
        ensures
            match self.spec_active_text_box() {
                Some(id) => match spec_find_kind(self.spec_objects(), id, ToolKind::Text) {
                    Some(ToolObject::Text(t)) => text == Some(&t),
                    _ => text is None,
                },
                None => text is None,
            },
    {
        match self.active_text_box {
            Some(id) => self.get_text(id),
            None => None,
        }
    }

    /// The content of the text box taking keyboard input.
    pub fn active_text_focus_content(&self) -> (content: Option<&str>)
        ensures
            match self.spec_active_text_box() {
                Some(id) => match spec_find_kind(self.spec_objects(), id, ToolKind::Text) {
                    Some(ToolObject::Text(t)) => content is Some && content->0@ == t.content@,
                    _ => content is None,
                },
                None => content is None,
            },
    {
        match self.active_text() {
            Some(text) => Some(text.content.as_str()),
            None => None,
        }
    }
}

/// Whether `object` is of the kind a tool places.
pub open spec fn spec_object_is(object: ToolObject, kind: ToolKind) -> bool {
    match (object, kind) {
        (ToolObject::Blur(_), ToolKind::Blur) => true,
        (ToolObject::Pen(_), ToolKind::Pen) => true,
        (ToolObject::Arrow(_), ToolKind::Arrow) => true,
        (ToolObject::Rectangle(_), ToolKind::Rectangle) => true,
        (ToolObject::Crop(_), ToolKind::Crop) => true,
        (ToolObject::Text(_), ToolKind::Text) => true,
        _ => false,
    }
}

/// How many of `objects` the tool `kind` placed.
pub open spec fn spec_count_kind(objects: Seq<ToolObject>, kind: ToolKind) -> nat
    decreases objects.len(),
{
    if objects.len() == 0 {
        0
    } else {
        spec_count_kind(objects.drop_last(), kind) + if spec_object_is(objects.last(), kind) {
            1nat
        } else {
            0nat
        }
    }
}

fn object_is(object: &ToolObject, kind: ToolKind) -> (b: bool)
    ensures
        b == spec_object_is(*object, kind),
{
    match (object, kind) {
        (ToolObject::Blur(_), ToolKind::Blur) => true,
        (ToolObject::Pen(_), ToolKind::Pen) => true,
        (ToolObject::Arrow(_), ToolKind::Arrow) => true,
        (ToolObject::Rectangle(_), ToolKind::Rectangle) => true,
        (ToolObject::Crop(_), ToolKind::Crop) => true,
        (ToolObject::Text(_), ToolKind::Text) => true,
        _ => false,
    }
}

impl EditorTools {
    /// How many placed objects the tool `kind` made.
    pub fn count_objects(&self, kind: ToolKind) -> (n: usize)
        ensures
            n == spec_count_kind(self.spec_objects(), kind),
    {
        let mut n: usize = 0;
        let mut i: usize = 0;
        while i < self.objects.len()
            invariant
                0 <= i <= self.objects.len(),
                n == spec_count_kind(self.objects@.take(i as int), kind),
                n <= i,
            decreases self.objects.len() - i,
        {
            assert(self.objects@.take(i + 1).drop_last() =~= self.objects@.take(i as int));
            if object_is(&self.objects[i], kind) {
                n = n + 1;
            }
            i = i + 1;
        }
        assert(self.objects@.take(i as int) =~= self.objects@);
        n
    }

    pub fn blur_count(&self) -> (n: usize)
        ensures
            n == spec_count_kind(self.spec_objects(), ToolKind::Blur),
    {
        self.count_objects(ToolKind::Blur)
    }

    pub fn pen_stroke_count(&self) -> (n: usize)
        ensures
            n == spec_count_kind(self.spec_objects(), ToolKind::Pen),
    {
        self.count_objects(ToolKind::Pen)
    }

    pub fn arrow_count(&self) -> (n: usize)
        ensures
            n == spec_count_kind(self.spec_objects(), ToolKind::Arrow),
    {
        self.count_objects(ToolKind::Arrow)
    }

    pub fn rectangle_count(&self) -> (n: usize)
        ensures
            n == spec_count_kind(self.spec_objects(), ToolKind::Rectangle),
    {
        self.count_objects(ToolKind::Rectangle)
    }

    pub fn crop_count(&self) -> (n: usize)
        ensures
            n == spec_count_kind(self.spec_objects(), ToolKind::Crop),
    {
        self.count_objects(ToolKind::Crop)
    }

    pub fn text_count(&self) -> (n: usize)
        ensures
            n == spec_count_kind(self.spec_objects(), ToolKind::Text),
    {
        self.count_objects(ToolKind::Text)
    }
}

} // verus!
