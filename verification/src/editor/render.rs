//! What the editor canvas draws from the tool state: composing text shown inline, and the
//! part of the image a blur covers.

use vstd::prelude::*;

use super::tools::TextElement;
use super::EditorAction;
use crate::chars::{append_chars, chars_of, string_from_chars};
use crate::text::{spec_utf8_width, utf8_width};

verus! {

/// Text an input method is composing, with its cursor in characters.
#[derive(Debug, Clone)]
pub struct TextPreeditState {
    pub content: String,
    pub cursor_chars: usize,
}

impl Default for TextPreeditState {
    fn default() -> (p: Self)
        ensures
            p.content@ == Seq::<char>::empty(),
            p.cursor_chars == 0,
    {
        TextPreeditState { content: String::new(), cursor_chars: 0 }
    }
}

/// How many characters of `s` start before byte `b`.
pub open spec fn spec_chars_before_byte(s: Seq<char>, b: int) -> nat
    decreases s.len(),
{
    if s.len() == 0 || b <= 0 {
        0
    } else {
        1 + spec_chars_before_byte(s.drop_first(), b - spec_utf8_width(s[0]))
    }
}

/// The composing cursor in characters, from the byte offset the input method reports
/// (a negative offset counts as the start).
pub fn preedit_cursor_char_index(preedit: &str, cursor_byte_index: i32) -> (n: usize)
    ensures
        n == spec_chars_before_byte(preedit@, cursor_byte_index as int),
{
    let chars = chars_of(preedit);
    let limit: i64 = if cursor_byte_index < 0 { 0 } else { cursor_byte_index as i64 };
    let mut offset: i64 = 0;
    let mut count: usize = 0;
    assert(chars@.skip(0) =~= chars@);
    assert(spec_chars_before_byte(preedit@, cursor_byte_index as int) == spec_chars_before_byte(
        preedit@,
        limit as int,
    ));
    while count < chars.len() && offset < limit
        invariant
            0 <= count <= chars.len(),
            chars@ == preedit@,
            0 <= offset <= limit + 4,
            0 <= limit <= i32::MAX,
            limit == (if cursor_byte_index < 0 { 0 } else { cursor_byte_index as int }),
            spec_chars_before_byte(preedit@, cursor_byte_index as int) == count
                + spec_chars_before_byte(chars@.skip(count as int), limit - offset),
        decreases chars.len() - count,
    {
        let ghost rest = chars@.skip(count as int);
        assert(rest.drop_first() =~= chars@.skip(count + 1));
        let c = chars[count];
        let w: i64 = utf8_width(c) as i64;
        assert(w == spec_utf8_width(rest[0]));
        offset = offset + w;
        count = count + 1;
    }
    proof {
        assert(chars@.skip(0) =~= chars@);
        if count == chars.len() {
            assert(chars@.skip(count as int).len() == 0);
        }
    }
    count
}

/// The text box's content with the composing text shown at its cursor.
pub open spec fn spec_content_with_preedit(content: Seq<char>, cursor: int, preedit: Seq<char>) -> Seq<
    char,
> {
    if preedit.len() == 0 {
        content
    } else {
        content.take(cursor) + preedit + content.skip(cursor)
    }
}

pub fn text_content_with_preedit(text: &TextElement, preedit: &TextPreeditState) -> (s: String)
    ensures
        s@ == spec_content_with_preedit(
            text.content@,
            text.spec_cursor_chars(),
            preedit.content@,
        ),
{
    let content = chars_of(text.content.as_str());
    let composing = chars_of(preedit.content.as_str());
    if composing.len() == 0 {
        return string_from_chars(&content);
    }
    let cursor = text.cursor_chars();
    let mut merged: Vec<char> = Vec::new();
    let mut i: usize = 0;
    while i < cursor
        invariant
            0 <= i <= cursor <= content.len(),
            merged@ == content@.take(i as int),
        decreases cursor - i,
    {
        merged.push(content[i]);
        i = i + 1;
        assert(merged@ =~= content@.take(i as int));
    }
    append_chars(&mut merged, &composing);
    let ghost head = merged@;
    let mut j: usize = cursor;
    while j < content.len()
        invariant
            cursor <= j <= content.len(),
            merged@ == head + content@.subrange(cursor as int, j as int),
        decreases content.len() - j,
    {
        merged.push(content[j]);
        j = j + 1;
        assert(merged@ =~= head + content@.subrange(cursor as int, j as int));
    }
    assert(content@.subrange(cursor as int, j as int) =~= content@.skip(cursor as int));
    string_from_chars(&merged)
}

/// The part of a `source_width` x `source_height` image that a blur at `(x, y)` of the given
/// size covers: the corner clamped into the image, the size cut at its edges; `None` for an
/// empty blur or image.
pub open spec fn spec_bounded_region_for_blur(
    x: i32,
    y: i32,
    width: u32,
    height: u32,
    source_width: i32,
    source_height: i32,
) -> Option<(i32, i32, u32, u32)> {
    if width == 0 || height == 0 || source_width <= 0 || source_height <= 0 {
        None
    } else {
        let left = crate::arith::spec_clamp(x as int, 0, source_width - 1);
        let top = crate::arith::spec_clamp(y as int, 0, source_height - 1);
        let bounded_width = crate::arith::spec_min(width as int, source_width - left);
        let bounded_height = crate::arith::spec_min(height as int, source_height - top);
        Some((left as i32, top as i32, bounded_width as u32, bounded_height as u32))
    }
}

pub fn bounded_region_for_blur(
    x: i32,
    y: i32,
    width: u32,
    height: u32,
    source_width: i32,
    source_height: i32,
) -> (r: Option<(i32, i32, u32, u32)>)
    ensures
        r == spec_bounded_region_for_blur(x, y, width, height, source_width, source_height),
        r matches Some(b) ==> 0 <= b.0 && 0 <= b.1 && b.2 > 0 && b.3 > 0 && b.0 + b.2
            <= source_width && b.1 + b.3 <= source_height,
{
    if width == 0 || height == 0 || source_width <= 0 || source_height <= 0 {
        return None;
    }
    let left = crate::arith::clamp_i32(x, 0, source_width - 1);
    let top = crate::arith::clamp_i32(y, 0, source_height - 1);
    let max_width: u32 = (source_width - left) as u32;
    let max_height: u32 = (source_height - top) as u32;
    let bounded_width = if width < max_width { width } else { max_width };
    let bounded_height = if height < max_height { height } else { max_height };
    Some((left, top, bounded_width, bounded_height))
}

/// The key and label under which an output action is reported; closing has none.
pub open spec fn spec_action_metadata(action: EditorAction) -> Option<(&'static str, &'static str)> {
    match action {
        EditorAction::Save => Some(("save", "Save")),
        EditorAction::Copy => Some(("copy", "Copy")),
        EditorAction::CloseRequested => None,
    }
}

pub fn action_metadata(action: EditorAction) -> (r: Option<(&'static str, &'static str)>)
    ensures
        r == spec_action_metadata(action),
{
    match action {
        EditorAction::Save => Some(("save", "Save")),
        EditorAction::Copy => Some(("copy", "Copy")),
        EditorAction::CloseRequested => None,
    }
}

} // verus!
