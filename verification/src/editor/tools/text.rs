//! Text boxes: content, a character cursor, and cursor movement across lines.

use vstd::prelude::*;

use super::{Color, ToolPoint};
use crate::chars::{chars_of, string_from_chars};

verus! {

/// Font families a text box can use.
#[derive(Debug, Clone, Copy, PartialEq, Eq, Structural)]
pub enum TextFontFamily {
    Sans,
    Serif,
}

impl TextFontFamily {
    /// The font family name handed to the renderer.
    pub fn cairo_font_name(self) -> (s: &'static str)
        ensures
            s@ == (match self {
                TextFontFamily::Sans => "Sans"@,
                TextFontFamily::Serif => "Serif"@,
            }),
    {
        match self {
            TextFontFamily::Sans => "Sans",
            TextFontFamily::Serif => "Serif",
        }
    }
}

/// Style of new text boxes.
#[derive(Debug, Clone, Copy, PartialEq, Eq, Structural)]
pub struct TextOptions {
    pub color: Color,
    pub size: u8,
    pub weight: u16,
    pub family: TextFontFamily,
}

impl Default for TextOptions {
    fn default() -> (o: Self)
        ensures
            o.color == (Color { r: 0, g: 0, b: 0 }),
            o.size == 16,
            o.weight == 500,
            o.family == TextFontFamily::Sans,
    {
        TextOptions {
            color: Color::new(0, 0, 0),
            size: 16,
            weight: 500,
            family: TextFontFamily::Sans,
        }
    }
}

fn clamp_text_size(size: u8) -> (r: u8)
    ensures
        r == (if size == 0 { 1 } else { size }),
{
    if size == 0 {
        1
    } else {
        size
    }
}

fn clamp_text_weight(weight: u16) -> (r: u16)
    ensures
        r == crate::arith::spec_clamp(weight as int, 100, 1000),
{
    if weight < 100 {
        100
    } else if weight > 1000 {
        1000
    } else {
        weight
    }
}

impl TextOptions {
    pub fn set_color(&mut self, color: Color)
        ensures
            *final(self) == (TextOptions { color, ..*old(self) }),
    {
        self.color = color;
    }

    /// Sets the font size; zero becomes one.
    pub fn set_size(&mut self, size: u8)
        ensures
            *final(self) == (TextOptions {
                size: if size == 0 {
                    1
                } else {
                    size
                },
                ..*old(self)
            }),
    {
        self.size = clamp_text_size(size);
    }

    /// Sets the font weight, clamped into `[100, 1000]`.
    pub fn set_weight(&mut self, weight: u16)
        ensures
            final(self).weight == crate::arith::spec_clamp(weight as int, 100, 1000),
            final(self).color == old(self).color,
            final(self).size == old(self).size,
            final(self).family == old(self).family,
    {
        self.weight = clamp_text_weight(weight);
    }

    pub fn set_family(&mut self, family: TextFontFamily)
        ensures
            *final(self) == (TextOptions { family, ..*old(self) }),
    {
        self.family = family;
    }
}

/// Number of line breaks in `s`.
pub open spec fn spec_count_newlines(s: Seq<char>) -> nat
    decreases s.len(),
{
    if s.len() == 0 {
        0
    } else {
        spec_count_newlines(s.drop_last()) + if s.last() == '\n' {
            1nat
        } else {
            0nat
        }
    }
}

/// Line and column of the position just after the first `k` characters of `s`.
pub open spec fn spec_line_col(s: Seq<char>, k: int) -> (int, int)
    decreases k,
{
    if k <= 0 {
        (0, 0)
    } else {
        let (line, column) = spec_line_col(s, k - 1);
        if s[k - 1] == '\n' {
            (line + 1, 0)
        } else {
            (line, column + 1)
        }
    }
}

/// The character position for line `tl`, column `tc` of `s`, scanning from position `i` which
/// lies at line `l`, column `c`: the exact position when the line is long enough, the end of
/// line `tl` when it is shorter, the end of the text when the line does not exist.
pub open spec fn spec_index_for(s: Seq<char>, tl: int, tc: int, i: int, l: int, c: int) -> int
    decreases s.len() - i,
{
    if i < 0 || i >= s.len() {
        s.len() as int
    } else if l == tl && c == tc {
        i
    } else if s[i] == '\n' {
        if l == tl {
            i
        } else {
            spec_index_for(s, tl, tc, i + 1, l + 1, 0)
        }
    } else {
        spec_index_for(s, tl, tc, i + 1, l, c + 1)
    }
}

/// The cursor after a vertical move by `delta` lines from character position `cursor` of `s`,
/// or `None` when the cursor does not move.
pub open spec fn spec_vertical_target(s: Seq<char>, cursor: int, delta: int) -> Option<int> {
    let lines = spec_count_newlines(s) + 1;
    let (line, column) = spec_line_col(s, cursor);
    let moved = if delta < 0 {
        if line + delta < 0 {
            0
        } else {
            line + delta
        }
    } else {
        line + delta
    };
    let target = if moved > lines - 1 {
        lines - 1
    } else {
        moved
    };
    if lines <= 1 || target == line {
        None
    } else {
        let next = spec_index_for(s, target, column, 0, 0, 0);
        if next == cursor {
            None
        } else {
            Some(next)
        }
    }
}

/// A text box. The cursor counts characters from the start of the content.
#[derive(Debug, Clone, PartialEq, Eq)]
pub struct TextElement {
    pub id: u64,
    pub x: i32,
    pub y: i32,
    pub content: String,
    pub cursor_chars: usize,
    pub options: TextOptions,
}

impl TextElement {
    /// The stored cursor, which may lie past the end if the content was shortened.
    pub open spec fn spec_cursor(&self) -> usize {
        self.cursor_chars
    }

    /// The effective cursor: the stored one, limited to the content's length.
    pub open spec fn spec_cursor_chars(&self) -> int {
        crate::arith::spec_min(self.spec_cursor() as int, self.content@.len() as int)
    }

    /// An empty text box at `anchor`.
    pub fn new(id: u64, anchor: ToolPoint, options: TextOptions) -> (t: Self)
        ensures
            t.id == id,
            t.x == anchor.x,
            t.y == anchor.y,
            t.content@ == Seq::<char>::empty(),
            t.spec_cursor() == 0,
            t.options == options,
    {
        TextElement { id, x: anchor.x, y: anchor.y, content: String::new(), cursor_chars: 0, options }
    }

    /// A text box holding `text`, with the cursor at its end.
    pub fn with_text(id: u64, anchor: ToolPoint, text: &str, options: TextOptions) -> (t: Self)
        ensures
            t.id == id,
            t.x == anchor.x,
            t.y == anchor.y,
            t.content@ == text@,
            t.spec_cursor() == text@.len(),
            t.options == options,
    {
        let chars = chars_of(text);
        let content = string_from_chars(&chars);
        TextElement { id, x: anchor.x, y: anchor.y, content, cursor_chars: chars.len(), options }
    }

    /// Inserts `c` at the cursor and moves the cursor past it.
    pub fn insert_char(&mut self, c: char)
        requires
            old(self).content@.len() < usize::MAX,
        ensures
            final(self).content@ == old(self).content@.insert(old(self).spec_cursor_chars(), c),
            final(self).spec_cursor() == (if old(self).spec_cursor() == usize::MAX {
                usize::MAX as int
            } else {
                old(self).spec_cursor() + 1
            }),
            final(self).id == old(self).id,
            final(self).x == old(self).x,
            final(self).y == old(self).y,
            final(self).options == old(self).options,
    {
        let mut chars = chars_of(self.content.as_str());
        let k = if self.cursor_chars < chars.len() { self.cursor_chars } else { chars.len() };
        chars.insert(k, c);
        self.content = string_from_chars(&chars);
        self.cursor_chars = if self.cursor_chars == usize::MAX { usize::MAX } else { self.cursor_chars + 1 };
    }

    /// Removes the character before the cursor. Nothing changes, and the result is `false`,
    /// when the stored cursor is at the start or past the end of the content.
    pub fn delete_backward(&mut self) -> (deleted: bool)
        ensures
            deleted == (0 < old(self).spec_cursor() <= old(self).content@.len()),
            deleted ==> final(self).content@ == old(self).content@.remove(
                old(self).spec_cursor() - 1,
            ) && final(self).spec_cursor() == old(self).spec_cursor() - 1,
            !deleted ==> final(self).content@ == old(self).content@ && final(self).spec_cursor()
                == old(self).spec_cursor(),
            final(self).id == old(self).id,
            final(self).x == old(self).x,
            final(self).y == old(self).y,
            final(self).options == old(self).options,
    {
        if self.cursor_chars == 0 {
            return false;
        }
        let mut chars = chars_of(self.content.as_str());
        if self.cursor_chars > chars.len() {
            return false;
        }
        chars.remove(self.cursor_chars - 1);
        self.content = string_from_chars(&chars);
        self.cursor_chars = self.cursor_chars - 1;
        true
    }

    /// Inserts a line break at the cursor.
    pub fn insert_newline(&mut self)
        requires
            old(self).content@.len() < usize::MAX,
        ensures
            final(self).content@ == old(self).content@.insert(old(self).spec_cursor_chars(), '\n'),
            final(self).spec_cursor() == (if old(self).spec_cursor() == usize::MAX {
                usize::MAX as int
            } else {
                old(self).spec_cursor() + 1
            }),
            final(self).id == old(self).id,
            final(self).x == old(self).x,
            final(self).y == old(self).y,
            final(self).options == old(self).options,
    {
        self.insert_char('\n');
    }

    fn char_count(&self) -> (n: usize)
        ensures
            n == self.content@.len(),
    {
        let chars = chars_of(self.content.as_str());
        chars.len()
    }

    /// The cursor position in characters, never past the end of the content.
    pub fn cursor_chars(&self) -> (n: usize)
        ensures
            n == self.spec_cursor_chars(),
    {
        let len = self.char_count();
        if self.cursor_chars < len {
            self.cursor_chars
        } else {
            len
        }
    }

    /// Moves the cursor one character left; `false` at the start.
    pub fn move_cursor_left(&mut self) -> (moved: bool)
        ensures
            moved == (old(self).spec_cursor_chars() > 0),
            moved ==> final(self).spec_cursor() == old(self).spec_cursor_chars() - 1,
            !moved ==> final(self).spec_cursor() == old(self).spec_cursor(),
            final(self).content == old(self).content,
            final(self).id == old(self).id,
            final(self).x == old(self).x,
            final(self).y == old(self).y,
            final(self).options == old(self).options,
    {
        let cursor = self.cursor_chars();
        if cursor == 0 {
            return false;
        }
        self.cursor_chars = cursor - 1;
        true
    }

    /// Moves the cursor one character right; `false` at the end.
    pub fn move_cursor_right(&mut self) -> (moved: bool)
        ensures
            moved == (old(self).spec_cursor_chars() < old(self).content@.len()),
            moved ==> final(self).spec_cursor() == old(self).spec_cursor_chars() + 1,
            !moved ==> final(self).spec_cursor() == old(self).spec_cursor(),
            final(self).content == old(self).content,
            final(self).id == old(self).id,
            final(self).x == old(self).x,
            final(self).y == old(self).y,
            final(self).options == old(self).options,
    {
        let max_chars = self.char_count();
        let cursor = self.cursor_chars();
        if cursor >= max_chars {
            return false;
        }
        self.cursor_chars = cursor + 1;
        true
    }

    /// Moves the cursor to the same column of the previous line (or that line's end).
    pub fn move_cursor_up(&mut self) -> (moved: bool)
        requires
            old(self).content@.len() < usize::MAX,
        ensures
            moved == spec_vertical_target(old(self).content@, old(self).spec_cursor_chars(), -1) is Some,
            moved ==> final(self).spec_cursor() == spec_vertical_target(
                old(self).content@,
                old(self).spec_cursor_chars(),
                -1,
            )->0,
            !moved ==> final(self).spec_cursor() == old(self).spec_cursor(),
            final(self).content == old(self).content,
            final(self).id == old(self).id,
            final(self).x == old(self).x,
            final(self).y == old(self).y,
            final(self).options == old(self).options,
    {
        self.move_cursor_vertically(-1)
    }

    /// Moves the cursor to the same column of the next line (or that line's end).
    pub fn move_cursor_down(&mut self) -> (moved: bool)
        requires
            old(self).content@.len() < usize::MAX,
        ensures
            moved == spec_vertical_target(old(self).content@, old(self).spec_cursor_chars(), 1) is Some,
            moved ==> final(self).spec_cursor() == spec_vertical_target(
                old(self).content@,
                old(self).spec_cursor_chars(),
                1,
            )->0,
            !moved ==> final(self).spec_cursor() == old(self).spec_cursor(),
            final(self).content == old(self).content,
            final(self).id == old(self).id,
            final(self).x == old(self).x,
            final(self).y == old(self).y,
            final(self).options == old(self).options,
    {
        self.move_cursor_vertically(1)
    }

    /// Puts the cursor after the last character.
    pub fn move_cursor_to_end(&mut self)
        ensures
            final(self).spec_cursor() == old(self).content@.len(),
            final(self).content == old(self).content,
            final(self).id == old(self).id,
            final(self).x == old(self).x,
            final(self).y == old(self).y,
            final(self).options == old(self).options,
    {
        self.cursor_chars = self.char_count();
    }

    fn cursor_line_column(&self) -> (lc: (usize, usize))
        ensures
            (lc.0 as int, lc.1 as int) == spec_line_col(self.content@, self.spec_cursor_chars()),
    {
        let chars = chars_of(self.content.as_str());
        let cursor = self.cursor_chars();
        let mut line: usize = 0;
        let mut column: usize = 0;
        let mut index: usize = 0;
        while index < cursor
            invariant
                chars@ == self.content@,
                cursor == self.spec_cursor_chars(),
                cursor <= chars.len(),
                0 <= index <= cursor,
                line <= index,
                column <= index,
                (line as int, column as int) == spec_line_col(chars@, index as int),
            decreases cursor - index,
        {
            if chars[index] == '\n' {
                line = line + 1;
                column = 0;
            } else {
                column = column + 1;
            }
            index = index + 1;
        }
        (line, column)
    }

    fn cursor_index_for_line_column(&self, target_line: usize, target_column: usize) -> (n: usize)
        ensures
            n == spec_index_for(self.content@, target_line as int, target_column as int, 0, 0, 0),
    {
        let chars = chars_of(self.content.as_str());
        let mut line: usize = 0;
        let mut column: usize = 0;
        let mut index: usize = 0;
        while index < chars.len()
            invariant
                chars@ == self.content@,
                0 <= index <= chars.len(),
                line <= index,
                column <= index,
                spec_index_for(chars@, target_line as int, target_column as int, index as int, line as int, column as int)
                    == spec_index_for(chars@, target_line as int, target_column as int, 0, 0, 0),
            decreases chars.len() - index,
        {
            if line == target_line && column == target_column {
                return index;
            }
            if chars[index] == '\n' {
                if line == target_line {
                    return index;
                }
                line = line + 1;
                column = 0;
            } else {
                column = column + 1;
            }
            index = index + 1;
        }
        chars.len()
    }

    fn line_count(&self) -> (n: usize)
        requires
            self.content@.len() < usize::MAX,
        ensures
            n == spec_count_newlines(self.content@) + 1,
    {
        let chars = chars_of(self.content.as_str());
        let mut count: usize = 1;
        let mut index: usize = 0;
        while index < chars.len()
            invariant
                chars@ == self.content@,
                chars.len() < usize::MAX,
                0 <= index <= chars.len(),
                count == spec_count_newlines(chars@.subrange(0, index as int)) + 1,
                count <= index + 1,
            decreases chars.len() - index,
        {
            assert(chars@.subrange(0, index + 1).drop_last() =~= chars@.subrange(0, index as int));
            if chars[index] == '\n' {
                count = count + 1;
            }
            index = index + 1;
        }
        assert(chars@.subrange(0, index as int) =~= chars@);
        count
    }

    fn move_cursor_vertically(&mut self, delta_lines: i32) -> (moved: bool)
        requires
            old(self).content@.len() < usize::MAX,
        ensures
            moved == spec_vertical_target(old(self).content@, old(self).spec_cursor_chars(), delta_lines as int) is Some,
            moved ==> final(self).spec_cursor() == spec_vertical_target(
                old(self).content@,
                old(self).spec_cursor_chars(),
                delta_lines as int,
            )->0,
            !moved ==> final(self).spec_cursor() == old(self).spec_cursor(),
            final(self).content == old(self).content,
            final(self).id == old(self).id,
            final(self).x == old(self).x,
            final(self).y == old(self).y,
            final(self).options == old(self).options,
    {
        let lines = self.line_count();
        if lines <= 1 {
            return false;
        }
        let (line, column) = self.cursor_line_column();
        let moved: usize = if delta_lines < 0 {
            let up: usize = (0i64 - delta_lines as i64) as usize;
            if line < up {
                0
            } else {
                line - up
            }
        } else {
            let down = delta_lines as usize;
            if line > lines - 1 || down > lines - 1 - line {
                lines - 1
            } else {
                line + down
            }
        };
        let target_line = if moved > lines - 1 { lines - 1 } else { moved };
        if target_line == line {
            return false;
        }
        let next_cursor = self.cursor_index_for_line_column(target_line, column);
        if next_cursor == self.cursor_chars() {
            return false;
        }
        self.cursor_chars = next_cursor;
        true
    }
}

/// Typing a character at a cursor inside the text and then deleting backward gives back
/// the text and the cursor: `insert_char` puts `c` at the cursor and advances it, after
/// which `delete_backward` applies and removes exactly that character.
pub proof fn lemma_type_then_delete_restores(content: Seq<char>, cursor: usize, c: char)
    requires
        cursor <= content.len() < usize::MAX,
    ensures
        ({
            let typed = content.insert(cursor as int, c);
            &&& crate::arith::spec_min(cursor as int, content.len() as int) == cursor
            &&& 0 < cursor + 1 <= typed.len()
            &&& typed.remove(cursor as int) == content
        }),
{
    assert(content.insert(cursor as int, c).remove(cursor as int) =~= content);
}

/// Moving the cursor left and then right brings it back: after a left move that happened,
/// a right move applies and restores the effective cursor.
pub proof fn lemma_left_then_right_restores(before: TextElement, after_left: TextElement)
    requires
        before.spec_cursor_chars() > 0,
        after_left.content == before.content,
        after_left.spec_cursor() == before.spec_cursor_chars() - 1,
    ensures
        after_left.spec_cursor_chars() < after_left.content@.len(),
        after_left.spec_cursor_chars() + 1 == before.spec_cursor_chars(),
{
}

proof fn lemma_line_col_counts_breaks(s: Seq<char>, k: int)
    requires
        0 <= k <= s.len(),
    ensures
        spec_line_col(s, k).0 == spec_count_newlines(s.take(k)),
    decreases k,
{
    if k > 0 {
        lemma_line_col_counts_breaks(s, k - 1);
        assert(s.take(k).drop_last() =~= s.take(k - 1));
    } else {
        assert(s.take(0).len() == 0);
    }
}

proof fn lemma_index_for_lands_on_line(s: Seq<char>, tl: int, tc: int, i: int, l: int, c: int)
    requires
        0 <= i <= s.len(),
        (l, c) == spec_line_col(s, i),
        l < tl || (l == tl && c <= tc),
        0 <= tc,
        tl <= spec_count_newlines(s),
    ensures
        i <= spec_index_for(s, tl, tc, i, l, c) <= s.len(),
        spec_line_col(s, spec_index_for(s, tl, tc, i, l, c)).0 == tl,
        ({
            let r = spec_index_for(s, tl, tc, i, l, c);
            let col = spec_line_col(s, r).1;
            col == tc || (col < tc && (r == s.len() || s[r] == '\n'))
        }),
    decreases s.len() - i,
{
    if i == s.len() {
        lemma_line_col_counts_breaks(s, i);
        assert(s.take(i) =~= s);
    } else if l == tl && c == tc {
    } else if s[i] == '\n' {
        if l != tl {
            lemma_index_for_lands_on_line(s, tl, tc, i + 1, l + 1, 0);
        }
    } else {
        lemma_index_for_lands_on_line(s, tl, tc, i + 1, l, c + 1);
    }
}

/// Moving the cursor down goes to the next line, at the same column or at that line's end
/// when the line is shorter; on the last line the cursor does not move.
pub proof fn lemma_cursor_down_goes_to_next_line(s: Seq<char>, cursor: int)
    requires
        0 <= cursor <= s.len(),
    ensures
        spec_line_col(s, cursor).0 < spec_count_newlines(s) ==> ({
            let (line, column) = spec_line_col(s, cursor);
            spec_vertical_target(s, cursor, 1) matches Some(r) && 0 <= r <= s.len() && spec_line_col(s, r).0
                == line + 1 && (spec_line_col(s, r).1 == column || (spec_line_col(s, r).1 < column && (r
                == s.len() || s[r] == '\n')))
        }),
        spec_line_col(s, cursor).0 == spec_count_newlines(s) ==> spec_vertical_target(s, cursor, 1) is None,
{
    let (line, column) = spec_line_col(s, cursor);
    lemma_line_col_nonneg(s, cursor);
    if line < spec_count_newlines(s) {
        lemma_index_for_lands_on_line(s, line + 1, column, 0, 0, 0);
    }
}

/// Moving the cursor up goes to the previous line, at the same column or at that line's end
/// when the line is shorter; on the first line the cursor does not move.
pub proof fn lemma_cursor_up_goes_to_previous_line(s: Seq<char>, cursor: int)
    requires
        0 <= cursor <= s.len(),
    ensures
        spec_line_col(s, cursor).0 > 0 ==> ({
            let (line, column) = spec_line_col(s, cursor);
            spec_vertical_target(s, cursor, -1) matches Some(r) && 0 <= r <= s.len() && spec_line_col(s, r).0
                == line - 1 && (spec_line_col(s, r).1 == column || (spec_line_col(s, r).1 < column && (r
                == s.len() || s[r] == '\n')))
        }),
        spec_line_col(s, cursor).0 == 0 ==> spec_vertical_target(s, cursor, -1) is None,
{
    let (line, column) = spec_line_col(s, cursor);
    lemma_line_col_nonneg(s, cursor);
    lemma_line_col_monotonic(s, cursor, s.len() as int);
    lemma_line_col_counts_breaks(s, s.len() as int);
    assert(s.take(s.len() as int) =~= s);
    if line > 0 {
        lemma_index_for_lands_on_line(s, line - 1, column, 0, 0, 0);
    }
}

proof fn lemma_line_col_monotonic(s: Seq<char>, k: int, j: int)
    requires
        k <= j,
    ensures
        spec_line_col(s, k).0 <= spec_line_col(s, j).0,
    decreases j - k,
{
    if k < j {
        lemma_line_col_monotonic(s, k, j - 1);
        if j > 0 {
            assert(spec_line_col(s, j - 1).0 <= spec_line_col(s, j).0);
        } else {
            lemma_line_col_nonneg(s, k);
        }
    }
}

proof fn lemma_line_col_nonneg(s: Seq<char>, k: int)
    ensures
        spec_line_col(s, k).0 >= 0,
        spec_line_col(s, k).1 >= 0,
    decreases k,
{
    if k > 0 {
        lemma_line_col_nonneg(s, k - 1);
    }
}

} // verus!
