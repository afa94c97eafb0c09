//! Theme modes, editor palettes and the parsing of color and preset overrides from the
//! theme configuration.

use vstd::prelude::*;

use crate::chars::string_from_chars;
use crate::geometry::Color;
use crate::text::{
    hex_value, is_hex_digit, spec_hex_value, spec_is_hex_digit, spec_trim, spec_utf8_len,
    spec_utf8_width, trimmed_chars, utf8_len_is, utf8_width,
};

verus! {

/// The color scheme the user asked for.
#[derive(Debug, Clone, Copy, PartialEq, Eq, Structural)]
pub enum ThemeMode {
    Light,
    Dark,
    System,
}

/// A color with opacity.
#[derive(Debug, Clone, Copy, PartialEq, Eq, Structural)]
pub struct RgbaColor {
    pub red: u8,
    pub green: u8,
    pub blue: u8,
    pub alpha: u8,
}

impl RgbaColor {
    pub fn new(red: u8, green: u8, blue: u8, alpha: u8) -> (c: Self)
        ensures
            c == (RgbaColor { red, green, blue, alpha }),
    {
        RgbaColor { red, green, blue, alpha }
    }
}

/// Colors of the selection marquee, outlines and resize handles.
#[derive(Debug, Clone, Copy, PartialEq, Eq, Structural)]
pub struct EditorSelectionPalette {
    pub drag_fill: RgbaColor,
    pub drag_stroke: RgbaColor,
    pub selected_outline: RgbaColor,
    pub resize_handle_fill: RgbaColor,
}

/// The selection palette of each mode; `System` looks like `Dark`.
pub open spec fn spec_selection_palette(mode: ThemeMode) -> EditorSelectionPalette {
    match mode {
        ThemeMode::Light => EditorSelectionPalette {
            drag_fill: RgbaColor { red: 0x18, green: 0x18, blue: 0x1B, alpha: 0x1A },
            drag_stroke: RgbaColor { red: 0x18, green: 0x18, blue: 0x1B, alpha: 0xC4 },
            selected_outline: RgbaColor { red: 0x18, green: 0x18, blue: 0x1B, alpha: 0xD9 },
            resize_handle_fill: RgbaColor { red: 0x18, green: 0x18, blue: 0x1B, alpha: 0xE6 },
        },
        _ => EditorSelectionPalette {
            drag_fill: RgbaColor { red: 0xE4, green: 0xE4, blue: 0xE7, alpha: 0x1F },
            drag_stroke: RgbaColor { red: 0xE4, green: 0xE4, blue: 0xE7, alpha: 0xDE },
            selected_outline: RgbaColor { red: 0xE4, green: 0xE4, blue: 0xE7, alpha: 0xE6 },
            resize_handle_fill: RgbaColor { red: 0xF4, green: 0xF4, blue: 0xF5, alpha: 0xF2 },
        },
    }
}

impl EditorSelectionPalette {
    pub fn for_theme_mode(mode: ThemeMode) -> (p: Self)
        ensures
            p == spec_selection_palette(mode),
    {
        match mode {
            ThemeMode::Light => EditorSelectionPalette {
                drag_fill: RgbaColor::new(0x18, 0x18, 0x1B, 0x1A),
                drag_stroke: RgbaColor::new(0x18, 0x18, 0x1B, 0xC4),
                selected_outline: RgbaColor::new(0x18, 0x18, 0x1B, 0xD9),
                resize_handle_fill: RgbaColor::new(0x18, 0x18, 0x1B, 0xE6),
            },
            ThemeMode::Dark | ThemeMode::System => EditorSelectionPalette {
                drag_fill: RgbaColor::new(0xE4, 0xE4, 0xE7, 0x1F),
                drag_stroke: RgbaColor::new(0xE4, 0xE4, 0xE7, 0xDE),
                selected_outline: RgbaColor::new(0xE4, 0xE4, 0xE7, 0xE6),
                resize_handle_fill: RgbaColor::new(0xF4, 0xF4, 0xF5, 0xF2),
            },
        }
    }
}

impl Default for EditorSelectionPalette {
    fn default() -> (p: Self)
        ensures
            p == spec_selection_palette(ThemeMode::Dark),
    {
        Self::for_theme_mode(ThemeMode::Dark)
    }
}

/// Colors of the composing underline and the caret in text boxes.
#[derive(Debug, Clone, Copy, PartialEq, Eq, Structural)]
pub struct EditorTextInputPalette {
    pub preedit_underline: RgbaColor,
    pub caret: RgbaColor,
}

impl Default for EditorTextInputPalette {
    fn default() -> (p: Self)
        ensures
            p == (EditorTextInputPalette {
                preedit_underline: RgbaColor { red: 0x1F, green: 0x57, blue: 0xEB, alpha: 0xEB },
                caret: RgbaColor { red: 0x24, green: 0x61, blue: 0xFF, alpha: 0xF2 },
            }),
    {
        EditorTextInputPalette {
            preedit_underline: RgbaColor::new(0x1F, 0x57, 0xEB, 0xEB),
            caret: RgbaColor::new(0x24, 0x61, 0xFF, 0xF2),
        }
    }
}

impl EditorTextInputPalette {
    /// The palette drawn from one accent color.
    pub fn from_rgb(red: u8, green: u8, blue: u8) -> (p: Self)
        ensures
            p == (EditorTextInputPalette {
                preedit_underline: RgbaColor { red, green, blue, alpha: 0xEB },
                caret: RgbaColor { red, green, blue, alpha: 0xF2 },
            }),
    {
        EditorTextInputPalette {
            preedit_underline: RgbaColor::new(red, green, blue, 0xEB),
            caret: RgbaColor::new(red, green, blue, 0xF2),
        }
    }
}

/// Whether two characters form a hexadecimal byte as `u8::from_str_radix(_, 16)` reads it:
/// two digits, or a plus sign and one digit.
pub open spec fn spec_valid_pair(a: char, b: char) -> bool {
    (spec_is_hex_digit(a) && spec_is_hex_digit(b)) || (a == '+' && spec_is_hex_digit(b))
}

/// The byte such a pair stands for.
pub open spec fn spec_pair_value(a: char, b: char) -> u8 {
    if a == '+' {
        spec_hex_value(b) as u8
    } else {
        (spec_hex_value(a) * 16 + spec_hex_value(b)) as u8
    }
}

/// Reads `n` two-byte hexadecimal fields from `t`, left to right, stopping at the first
/// invalid one. `None` means that a field boundary falls inside a character (the byte
/// slicing would fail); `Some(None)` that a field is invalid; `Some(Some(bytes))` the values.
pub open spec fn spec_pairs(t: Seq<char>, n: nat) -> Option<Option<Seq<u8>>>
    decreases n,
{
    if n == 0 {
        Some(Some(Seq::empty()))
    } else if t.len() == 0 {
        Some(None)
    } else if spec_utf8_width(t[0]) == 2 {
        Some(None)
    } else if spec_utf8_width(t[0]) == 1 && t.len() >= 2 && spec_utf8_width(t[1]) == 1 {
        if !spec_valid_pair(t[0], t[1]) {
            Some(None)
        } else {
            match spec_pairs(t.skip(2), (n - 1) as nat) {
                None => None,
                Some(None) => Some(None),
                Some(Some(rest)) => Some(Some(seq![spec_pair_value(t[0], t[1])] + rest)),
            }
        }
    } else {
        None
    }
}

/// `t` without one leading `#`.
pub open spec fn spec_strip_hash(t: Seq<char>) -> Seq<char> {
    if t.len() > 0 && t[0] == '#' {
        t.drop_first()
    } else {
        t
    }
}

/// The digits `parse_hex_rgb` reads from `value`.
pub open spec fn spec_rgb_digits(value: Seq<char>) -> Seq<char> {
    spec_strip_hash(spec_trim(value))
}

/// Whether reading `value` as `#RRGGBB` or `RRGGBB` completes (no field boundary falls
/// inside a character).
pub open spec fn spec_rgb_defined(value: Seq<char>) -> bool {
    spec_utf8_len(spec_rgb_digits(value)) == 6 ==> spec_pairs(spec_rgb_digits(value), 3) is Some
}

/// `value` read as `#RRGGBB` or `RRGGBB`, surrounding whitespace ignored.
pub open spec fn spec_parse_hex_rgb(value: Seq<char>) -> Option<Color> {
    let digits = spec_rgb_digits(value);
    if spec_utf8_len(digits) != 6 {
        None
    } else {
        match spec_pairs(digits, 3) {
            Some(Some(b)) => Some(Color { r: b[0], g: b[1], b: b[2] }),
            _ => None,
        }
    }
}

/// `value` read as `#RRGGBB` only.
pub open spec fn spec_parse_hash_hex_rgb(value: Seq<char>) -> Option<Color> {
    let t = spec_trim(value);
    if t.len() > 0 && t[0] == '#' {
        spec_parse_hex_rgb(value)
    } else {
        None
    }
}

/// Whether reading `value` as `#RRGGBB` completes.
pub open spec fn spec_hash_rgb_defined(value: Seq<char>) -> bool {
    let t = spec_trim(value);
    t.len() > 0 && t[0] == '#' ==> spec_rgb_defined(value)
}

/// The digits after the `#` of a trimmed `#RRGGBB[AA]` value.
pub open spec fn spec_rgba_digits(value: Seq<char>) -> Seq<char> {
    spec_trim(value).drop_first()
}

/// Whether reading `value` as `#RRGGBB` or `#RRGGBBAA` completes.
pub open spec fn spec_rgba_defined(value: Seq<char>) -> bool {
    let t = spec_trim(value);
    let d = spec_rgba_digits(value);
    t.len() > 0 && t[0] == '#' ==> (spec_utf8_len(d) == 6 ==> spec_pairs(d, 3) is Some) && (
    spec_utf8_len(d) == 8 ==> spec_pairs(d, 4) is Some)
}

/// `value` read as `#RRGGBB` (opaque) or `#RRGGBBAA`, surrounding whitespace ignored.
pub open spec fn spec_parse_hash_hex_rgba(value: Seq<char>) -> Option<RgbaColor> {
    let t = spec_trim(value);
    let d = spec_rgba_digits(value);
    if !(t.len() > 0 && t[0] == '#') {
        None
    } else if spec_utf8_len(d) == 6 {
        match spec_pairs(d, 3) {
            Some(Some(b)) => Some(RgbaColor { red: b[0], green: b[1], blue: b[2], alpha: 0xFF }),
            _ => None,
        }
    } else if spec_utf8_len(d) == 8 {
        match spec_pairs(d, 4) {
            Some(Some(b)) => Some(RgbaColor { red: b[0], green: b[1], blue: b[2], alpha: b[3] }),
            _ => None,
        }
    } else {
        None
    }
}

fn parse_pairs(t: &Vec<char>, n: usize) -> (r: Option<Vec<u8>>)
    requires
        spec_pairs(t@, n as nat) is Some,
    ensures
        match spec_pairs(t@, n as nat) {
            Some(Some(b)) => r is Some && r->0@ == b,
            _ => r is None,
        },
{
    let mut out: Vec<u8> = Vec::new();
    let mut pos: usize = 0;
    let mut k: usize = 0;
    assert(t@.skip(0) =~= t@);
    while k < n
        invariant
            0 <= k <= n,
            pos == 2 * k,
            pos <= t@.len(),
            spec_pairs(t@.skip(pos as int), (n - k) as nat) is Some,
            match spec_pairs(t@, n as nat) {
                Some(Some(b)) => match spec_pairs(t@.skip(pos as int), (n - k) as nat) {
                    Some(Some(rest)) => b == out@ + rest,
                    _ => false,
                },
                _ => spec_pairs(t@.skip(pos as int), (n - k) as nat) == Some(None::<Seq<u8>>),
            },
        decreases n - k,
    {
        let ghost rest = t@.skip(pos as int);
        if pos >= t.len() {
            return None;
        }
        let w0 = utf8_width(t[pos]);
        if w0 == 2 {
            return None;
        }
        assert(rest[0] == t@[pos as int]);
        assert(w0 == 1 && rest.len() >= 2 && spec_utf8_width(rest[1]) == 1);
        assert(rest[1] == t@[pos + 1]);
        let a = t[pos];
        let b = t[pos + 1];
        let valid = (is_hex_digit(a) && is_hex_digit(b)) || (a == '+' && is_hex_digit(b));
        if !valid {
            return None;
        }
        let value: u8 = if a == '+' {
            hex_value(b)
        } else {
            hex_value(a) * 16 + hex_value(b)
        };
        out.push(value);
        assert(rest.skip(2) =~= t@.skip(pos + 2));
        pos = pos + 2;
        k = k + 1;
        proof {
            match spec_pairs(t@, n as nat) {
                Some(Some(bs)) => {
                    match spec_pairs(t@.skip(pos as int), (n - k) as nat) {
                        Some(Some(r2)) => {
                            assert(bs =~= out@ + r2);
                        },
                        _ => {},
                    }
                },
                _ => {},
            }
        }
    }
    proof {
        match spec_pairs(t@, n as nat) {
            Some(Some(bs)) => {
                assert(out@ =~= bs);
            },
            _ => {
                assert(spec_pairs(t@.skip(pos as int), 0) == Some(Some(Seq::<u8>::empty())));
            },
        }
    }
    Some(out)
}

/// A complete read of `n` fields yields `n` bytes.
proof fn lemma_pairs_len(t: Seq<char>, n: nat)
    ensures
        spec_pairs(t, n) matches Some(Some(b)) ==> b.len() == n,
    decreases n,
{
    if n > 0 && t.len() >= 2 {
        lemma_pairs_len(t.skip(2), (n - 1) as nat);
    }
}

/// The characters of `t` without one leading `#`.
fn strip_hash(t: &Vec<char>) -> (v: Vec<char>)
    ensures
        v@ == spec_strip_hash(t@),
{
    let start: usize = if t.len() > 0 && t[0] == '#' { 1 } else { 0 };
    let mut v: Vec<char> = Vec::new();
    let mut i: usize = start;
    while i < t.len()
        invariant
            start <= i <= t.len(),
            v@ == t@.subrange(start as int, i as int),
        decreases t.len() - i,
    {
        v.push(t[i]);
        i = i + 1;
        assert(v@ =~= t@.subrange(start as int, i as int));
    }
    assert(t@.drop_first() =~= t@.subrange(1, t@.len() as int));
    assert(t@ =~= t@.subrange(0, t@.len() as int));
    v
}

/// Reads `#RRGGBB` or `RRGGBB`, with surrounding whitespace, as a color.
pub fn parse_hex_rgb(value: &str) -> (r: Option<Color>)
    requires
        spec_rgb_defined(value@),
    ensures
        r == spec_parse_hex_rgb(value@),
{
    let t = trimmed_chars(value);
    let digits = strip_hash(&t);
    if !utf8_len_is(&digits, 6) {
        return None;
    }
    proof {
        lemma_pairs_len(digits@, 3);
    }
    match parse_pairs(&digits, 3) {
        Some(b) => Some(Color::new(b[0], b[1], b[2])),
        None => None,
    }
}

/// Reads `#RRGGBB` (the `#` required) as a color.
pub fn parse_hash_hex_rgb(value: &str) -> (r: Option<Color>)
    requires
        spec_hash_rgb_defined(value@),
    ensures
        r == spec_parse_hash_hex_rgb(value@),
{
    let t = trimmed_chars(value);
    if t.len() == 0 || t[0] != '#' {
        return None;
    }
    parse_hex_rgb(value)
}

/// Reads `#RRGGBB` as an opaque color or `#RRGGBBAA` as a color with opacity.
pub fn parse_hash_hex_rgba(value: &str) -> (r: Option<RgbaColor>)
    requires
        spec_rgba_defined(value@),
    ensures
        r == spec_parse_hash_hex_rgba(value@),
{
    let t = trimmed_chars(value);
    if t.len() == 0 || t[0] != '#' {
        return None;
    }
    let mut digits: Vec<char> = Vec::new();
    let mut i: usize = 1;
    while i < t.len()
        invariant
            1 <= i <= t.len(),
            digits@ == t@.subrange(1, i as int),
        decreases t.len() - i,
    {
        digits.push(t[i]);
        i = i + 1;
        assert(digits@ =~= t@.subrange(1, i as int));
    }
    assert(digits@ =~= spec_rgba_digits(value@));
    proof {
        lemma_pairs_len(digits@, 3);
        lemma_pairs_len(digits@, 4);
    }
    if utf8_len_is(&digits, 6) {
        match parse_pairs(&digits, 3) {
            Some(b) => Some(RgbaColor::new(b[0], b[1], b[2], 0xFF)),
            None => None,
        }
    } else if utf8_len_is(&digits, 8) {
        match parse_pairs(&digits, 4) {
            Some(b) => Some(RgbaColor::new(b[0], b[1], b[2], b[3])),
            None => None,
        }
    } else {
        None
    }
}

/// The text-input accents drawn from the focus-ring color, when it reads as `#RRGGBB`
/// or `RRGGBB`.
pub fn text_input_palette_from_focus_ring_color(value: &str) -> (r: Option<EditorTextInputPalette>)
    requires
        spec_rgb_defined(value@),
    ensures
        r == (match spec_parse_hex_rgb(value@) {
            Some(c) => Some(
                EditorTextInputPalette {
                    preedit_underline: RgbaColor { red: c.r, green: c.g, blue: c.b, alpha: 0xEB },
                    caret: RgbaColor { red: c.r, green: c.g, blue: c.b, alpha: 0xF2 },
                },
            ),
            None => None::<EditorTextInputPalette>,
        }),
{
    match parse_hex_rgb(value) {
        Some(c) => Some(EditorTextInputPalette::from_rgb(c.r, c.g, c.b)),
        None => None,
    }
}

/// The color `raw` reads as, or `current` where `raw` is absent or not `#RRGGBB[AA]`.
pub open spec fn spec_color_override(raw: Option<Seq<char>>, current: RgbaColor) -> RgbaColor {
    match raw {
        Some(v) => match spec_parse_hash_hex_rgba(v) {
            Some(c) => c,
            None => current,
        },
        None => current,
    }
}

/// Whether reading `raw` as a color override completes.
pub open spec fn spec_override_defined(raw: Option<Seq<char>>) -> bool {
    raw matches Some(v) ==> spec_rgba_defined(v)
}

/// Replaces `target` by the color that `raw` reads as; an absent or invalid value leaves
/// it unchanged.
pub fn apply_selection_color_override(raw: Option<&str>, target: &mut RgbaColor)
    requires
        spec_override_defined(
            match raw {
                Some(v) => Some(v@),
                None => None,
            },
        ),
    ensures
        *final(target) == spec_color_override(
            match raw {
                Some(v) => Some(v@),
                None => None,
            },
            *old(target),
        ),
{
    let value = match raw {
        Some(v) => v,
        None => return ,
    };
    match parse_hash_hex_rgba(value) {
        Some(parsed) => {
            *target = parsed;
        },
        None => {},
    }
}

/// Most entries a tool-option preset list keeps.
pub const MAX_TOOL_OPTION_PRESET_COUNT: usize = 6;

/// Smallest and largest stroke width a preset may name.
pub const MIN_STROKE_WIDTH_PRESET: u8 = 1;
pub const MAX_STROKE_WIDTH_PRESET: u8 = 64;

/// Smallest and largest text size a preset may name.
pub const MIN_TEXT_SIZE_PRESET: u8 = 8;
pub const MAX_TEXT_SIZE_PRESET: u8 = 160;

/// A color offered in the tool-option palette, with the label shown for it.
#[derive(Debug, Clone)]
pub struct StrokeColorPreset {
    pub label: String,
    pub r: u8,
    pub g: u8,
    pub b: u8,
}

impl StrokeColorPreset {
    pub fn new(label: String, r: u8, g: u8, b: u8) -> (p: Self)
        ensures
            p.label@ == label@,
            p.r == r,
            p.g == g,
            p.b == b,
    {
        StrokeColorPreset { label, r, g, b }
    }

    pub open spec fn spec_rgb(&self) -> (u8, u8, u8) {
        (self.r, self.g, self.b)
    }

    pub fn rgb(&self) -> (t: (u8, u8, u8))
        ensures
            t == self.spec_rgb(),
    {
        (self.r, self.g, self.b)
    }
}

/// The upper-case hexadecimal digit of `n` (below 16).
pub open spec fn spec_hex_digit_upper(n: int) -> char {
    if n < 10 {
        (48 + n) as char
    } else {
        (55 + n) as char
    }
}

/// `#RRGGBB` in upper-case digits.
pub open spec fn spec_hex_label(c: (u8, u8, u8)) -> Seq<char> {
    seq![
        '#',
        spec_hex_digit_upper(c.0 as int / 16),
        spec_hex_digit_upper(c.0 as int % 16),
        spec_hex_digit_upper(c.1 as int / 16),
        spec_hex_digit_upper(c.1 as int % 16),
        spec_hex_digit_upper(c.2 as int / 16),
        spec_hex_digit_upper(c.2 as int % 16),
    ]
}

fn hex_digit_upper(n: u8) -> (c: char)
    requires
        n < 16,
    ensures
        c == spec_hex_digit_upper(n as int),
{
    if n < 10 {
        (48 + n) as char
    } else {
        (55 + n) as char
    }
}

/// The label `#RRGGBB` of a color.
pub fn hex_label(r: u8, g: u8, b: u8) -> (s: String)
    ensures
        s@ == spec_hex_label((r, g, b)),
{
    let mut v: Vec<char> = Vec::new();
    v.push('#');
    v.push(hex_digit_upper(r / 16));
    v.push(hex_digit_upper(r % 16));
    v.push(hex_digit_upper(g / 16));
    v.push(hex_digit_upper(g % 16));
    v.push(hex_digit_upper(b / 16));
    v.push(hex_digit_upper(b % 16));
    assert(v@ =~= spec_hex_label((r, g, b)));
    string_from_chars(&v)
}

/// The characters of each string.
pub open spec fn spec_views(values: Seq<String>) -> Seq<Seq<char>> {
    values.map_values(|s: String| s@)
}

/// The palette read from `values[i..]` onto `acc`: each `#RRGGBB` entry in order, invalid
/// ones and repeats skipped, stopping once six are kept. `None` where an entry is read
/// whose byte slicing would fail.
pub open spec fn spec_palette_from(values: Seq<Seq<char>>, i: int, acc: Seq<(u8, u8, u8)>) -> Option<
    Seq<(u8, u8, u8)>,
>
    decreases values.len() - i,
{
    if i < 0 || i >= values.len() || acc.len() >= 6 {
        Some(acc)
    } else if !spec_hash_rgb_defined(values[i]) {
        None
    } else {
        match spec_parse_hash_hex_rgb(values[i]) {
            None => spec_palette_from(values, i + 1, acc),
            Some(c) => if acc.contains((c.r, c.g, c.b)) {
                spec_palette_from(values, i + 1, acc)
            } else {
                spec_palette_from(values, i + 1, acc.push((c.r, c.g, c.b)))
            },
        }
    }
}

/// Whether reading a palette from `values` completes.
pub open spec fn spec_palette_defined(values: Seq<Seq<char>>) -> bool {
    values.len() == 0 || spec_palette_from(values, 0, Seq::empty()) is Some
}

/// The colors of the palette read from `values`; `None` for an empty list or one with no
/// valid entry.
pub open spec fn spec_palette_presets(values: Seq<Seq<char>>) -> Option<Seq<(u8, u8, u8)>> {
    if values.len() == 0 {
        None
    } else {
        match spec_palette_from(values, 0, Seq::empty()) {
            Some(acc) => if acc.len() == 0 {
                None
            } else {
                Some(acc)
            },
            None => None,
        }
    }
}

/// Whether `presets` holds exactly the colors `rgbs`, in order, each labelled `#RRGGBB`.
pub open spec fn spec_presets_are(presets: Seq<StrokeColorPreset>, rgbs: Seq<(u8, u8, u8)>) -> bool {
    &&& presets.len() == rgbs.len()
    &&& forall|k: int|
        0 <= k < rgbs.len() ==> (#[trigger] presets[k]).spec_rgb() == rgbs[k] && presets[k].label@
            == spec_hex_label(rgbs[k])
}

/// Reads the tool-option color palette: `#RRGGBB` entries in order, invalid ones and
/// repeats skipped, at most six kept; `None` where nothing is left.
pub fn parse_color_palette_presets(values: &Vec<String>) -> (r: Option<Vec<StrokeColorPreset>>)
    requires
        spec_palette_defined(spec_views(values@)),
    ensures
        match (r, spec_palette_presets(spec_views(values@))) {
            (Some(p), Some(rgbs)) => spec_presets_are(p@, rgbs),
            (None, None) => true,
            _ => false,
        },
{
    let ghost views = spec_views(values@);
    if values.len() == 0 {
        return None;
    }
    let mut parsed: Vec<StrokeColorPreset> = Vec::new();
    let ghost mut acc: Seq<(u8, u8, u8)> = Seq::empty();
    let mut i: usize = 0;
    while i < values.len()
        invariant
            0 <= i <= values.len(),
            views == spec_views(values@),
            spec_palette_from(views, 0, Seq::empty()) is Some,
            spec_palette_from(views, i as int, acc) == spec_palette_from(views, 0, Seq::empty()),
            spec_presets_are(parsed@, acc),
            acc.len() <= 6,
        ensures
            spec_palette_from(views, i as int, acc) == Some(acc),
            spec_palette_from(views, 0, Seq::empty()) == Some(acc),
            spec_presets_are(parsed@, acc),
        decreases values.len() - i,
    {
        if parsed.len() >= MAX_TOOL_OPTION_PRESET_COUNT {
            break;
        }
        let value: &str = values[i].as_str();
        assert(views[i as int] == value@);
        let parsed_color = parse_hash_hex_rgb(value);
        match parsed_color {
            None => {},
            Some(color) => {
                let mut seen = false;
                let mut k: usize = 0;
                while k < parsed.len()
                    invariant
                        0 <= k <= parsed.len(),
                        spec_presets_are(parsed@, acc),
                        seen <==> exists|j: int| 0 <= j < k && acc[j] == (color.r, color.g, color.b),
                    decreases parsed.len() - k,
                {
                    if parsed[k].r == color.r && parsed[k].g == color.g && parsed[k].b == color.b {
                        seen = true;
                    }
                    k = k + 1;
                }
                assert(seen <==> acc.contains((color.r, color.g, color.b)));
                if !seen {
                    let label = hex_label(color.r, color.g, color.b);
                    parsed.push(StrokeColorPreset::new(label, color.r, color.g, color.b));
                    proof {
                        acc = acc.push((color.r, color.g, color.b));
                    }
                }
            },
        }
        i = i + 1;
    }
    if parsed.len() == 0 {
        return None;
    }
    Some(parsed)
}

/// The presets read from `values[i..]` onto `acc`: in-range values in order, repeats
/// skipped, reading stopping at the first new value once six are kept.
pub open spec fn spec_numeric_from(values: Seq<i64>, min: int, max: int, i: int, acc: Seq<u8>) -> Seq<
    u8,
>
    decreases values.len() - i,
{
    if i < 0 || i >= values.len() {
        acc
    } else if values[i] < min || values[i] > max {
        spec_numeric_from(values, min, max, i + 1, acc)
    } else if acc.contains(values[i] as u8) {
        spec_numeric_from(values, min, max, i + 1, acc)
    } else if acc.len() >= 6 {
        acc
    } else {
        spec_numeric_from(values, min, max, i + 1, acc.push(values[i] as u8))
    }
}

/// The presets read from `values`; `None` for an empty list or one with no value in range.
pub open spec fn spec_numeric_presets(values: Seq<i64>, min: int, max: int) -> Option<Seq<u8>> {
    let acc = spec_numeric_from(values, min, max, 0, Seq::empty());
    if values.len() == 0 || acc.len() == 0 {
        None
    } else {
        Some(acc)
    }
}

/// Reads a numeric preset list: values in `min..=max` in order, repeats skipped, at most six
/// kept; `None` where nothing is left.
pub fn parse_numeric_presets(values: &Vec<i64>, min: u8, max: u8) -> (r: Option<Vec<u8>>)
    ensures
        match (r, spec_numeric_presets(values@, min as int, max as int)) {
            (Some(p), Some(q)) => p@ == q,
            (None, None) => true,
            _ => false,
        },
{
    if values.len() == 0 {
        return None;
    }
    let mut parsed: Vec<u8> = Vec::new();
    let min_bound = min as i64;
    let max_bound = max as i64;
    let mut i: usize = 0;
    while i < values.len()
        invariant
            0 <= i <= values.len(),
            min_bound == min,
            max_bound == max,
            spec_numeric_from(values@, min as int, max as int, i as int, parsed@)
                == spec_numeric_from(values@, min as int, max as int, 0, Seq::empty()),
            parsed@.len() <= 6,
        ensures
            spec_numeric_from(values@, min as int, max as int, 0, Seq::empty()) == parsed@,
        decreases values.len() - i,
    {
        let value = values[i];
        if value < min_bound || value > max_bound {
            i = i + 1;
            continue;
        }
        let byte = value as u8;
        let mut seen = false;
        let mut k: usize = 0;
        while k < parsed.len()
            invariant
                0 <= k <= parsed.len(),
                seen <==> exists|j: int| 0 <= j < k && parsed@[j] == byte,
            decreases parsed.len() - k,
        {
            if parsed[k] == byte {
                seen = true;
            }
            k = k + 1;
        }
        assert(seen <==> parsed@.contains(byte));
        if !seen {
            if parsed.len() >= MAX_TOOL_OPTION_PRESET_COUNT {
                break;
            }
            parsed.push(byte);
        }
        i = i + 1;
    }
    if parsed.len() == 0 {
        return None;
    }
    Some(parsed)
}

proof fn lemma_hex_digit_reads_back(n: int)
    requires
        0 <= n < 16,
    ensures
        spec_is_hex_digit(spec_hex_digit_upper(n)),
        spec_hex_value(spec_hex_digit_upper(n)) == n,
        spec_utf8_width(spec_hex_digit_upper(n)) == 1,
        spec_hex_digit_upper(n) != '+',
        !crate::text::spec_is_whitespace(spec_hex_digit_upper(n)),
{
}

/// The label given to a palette color reads back, as `#RRGGBB`, as that color.
pub proof fn lemma_hex_label_reads_back(r: u8, g: u8, b: u8)
    ensures
        spec_hash_rgb_defined(spec_hex_label((r, g, b))),
        spec_parse_hash_hex_rgb(spec_hex_label((r, g, b))) == Some(Color { r, g, b }),
{
    let l = spec_hex_label((r, g, b));
    let d = l.drop_first();
    lemma_hex_digit_reads_back(r as int / 16);
    lemma_hex_digit_reads_back(r as int % 16);
    lemma_hex_digit_reads_back(g as int / 16);
    lemma_hex_digit_reads_back(g as int % 16);
    lemma_hex_digit_reads_back(b as int / 16);
    lemma_hex_digit_reads_back(b as int % 16);
    assert(!crate::text::spec_is_whitespace(l[0]));
    assert(!crate::text::spec_is_whitespace(l.last()));
    assert(crate::text::spec_trim_start(l) == l);
    assert(crate::text::spec_trim_end(l) == l);
    assert(spec_trim(l) == l);
    assert(spec_rgb_digits(l) == d);
    assert(d.len() == 6);
    assert(spec_utf8_len(d) == 6) by {
        reveal_with_fuel(spec_utf8_len, 7);
        assert(d.drop_last().drop_last().drop_last().drop_last().drop_last().drop_last().len() == 0);
    }
    let d1 = d.skip(2);
    let d2 = d1.skip(2);
    let d3 = d2.skip(2);
    assert(d3.len() == 0);
    assert(spec_pairs(d3, 0) == Some(Some(Seq::<u8>::empty())));
    assert(d2[0] == d[4] && d2[1] == d[5]);
    assert(d1[0] == d[2] && d1[1] == d[3]);
    assert(spec_pair_value(d[4], d[5]) == b);
    assert(spec_pair_value(d[2], d[3]) == g);
    assert(spec_pair_value(d[0], d[1]) == r);
    assert(spec_pairs(d2, 1) == Some(Some(seq![b])));
    assert(spec_pairs(d1, 2) == Some(Some(seq![g] + seq![b])));
    assert(spec_pairs(d, 3) == Some(Some(seq![r] + (seq![g] + seq![b]))));
    let bytes = seq![r] + (seq![g] + seq![b]);
    assert(bytes[0] == r && bytes[1] == g && bytes[2] == b);
}

} // verus!
