//! Editor defaults from the theme configuration, their per-mode resolution, and the
//! overrides the editor draws from them.

use vstd::prelude::*;

use crate::chars::copy_text;
use crate::geometry::Color;
use crate::text::{
    ascii_lowercase_chars, contains_chars, spec_ascii_lowercase, spec_contains, spec_trim,
    trimmed_chars,
};
use crate::theme::{
    apply_selection_color_override, parse_color_palette_presets, parse_hex_rgb,
    parse_numeric_presets, spec_color_override, spec_numeric_presets, spec_palette_defined,
    spec_palette_presets, spec_parse_hex_rgb, spec_presets_are, spec_rgb_defined,
    spec_rgba_defined, spec_selection_palette, spec_views, EditorSelectionPalette,
    StrokeColorPreset, ThemeMode, MAX_STROKE_WIDTH_PRESET, MAX_TEXT_SIZE_PRESET,
    MIN_STROKE_WIDTH_PRESET, MIN_TEXT_SIZE_PRESET,
};

verus! {

/// Editor settings of the theme configuration, each optional.
#[derive(Debug, Clone)]
pub struct EditorDefaults {
    pub rectangle_border_radius: Option<u16>,
    pub selection_drag_fill_color: Option<String>,
    pub selection_drag_stroke_color: Option<String>,
    pub selection_outline_color: Option<String>,
    pub selection_handle_color: Option<String>,
    pub default_tool_color: Option<String>,
    pub default_text_size: Option<u8>,
    pub default_stroke_width: Option<u8>,
    pub tool_color_palette: Option<Vec<String>>,
    pub stroke_width_presets: Option<Vec<i64>>,
    pub text_size_presets: Option<Vec<i64>>,
}

/// What an `EditorDefaults` holds, strings taken as character sequences.
pub struct EditorDefaultsView {
    pub rectangle_border_radius: Option<u16>,
    pub selection_drag_fill_color: Option<Seq<char>>,
    pub selection_drag_stroke_color: Option<Seq<char>>,
    pub selection_outline_color: Option<Seq<char>>,
    pub selection_handle_color: Option<Seq<char>>,
    pub default_tool_color: Option<Seq<char>>,
    pub default_text_size: Option<u8>,
    pub default_stroke_width: Option<u8>,
    pub tool_color_palette: Option<Seq<Seq<char>>>,
    pub stroke_width_presets: Option<Seq<i64>>,
    pub text_size_presets: Option<Seq<i64>>,
}

pub open spec fn spec_text_view(o: Option<String>) -> Option<Seq<char>> {
    match o {
        Some(s) => Some(s@),
        None => None,
    }
}

pub open spec fn spec_texts_view(o: Option<Vec<String>>) -> Option<Seq<Seq<char>>> {
    match o {
        Some(v) => Some(spec_views(v@)),
        None => None,
    }
}

pub open spec fn spec_numbers_view<T>(o: Option<Vec<T>>) -> Option<Seq<T>> {
    match o {
        Some(v) => Some(v@),
        None => None,
    }
}

impl View for EditorDefaults {
    type V = EditorDefaultsView;

    open spec fn view(&self) -> EditorDefaultsView {
        EditorDefaultsView {
            rectangle_border_radius: self.rectangle_border_radius,
            selection_drag_fill_color: spec_text_view(self.selection_drag_fill_color),
            selection_drag_stroke_color: spec_text_view(self.selection_drag_stroke_color),
            selection_outline_color: spec_text_view(self.selection_outline_color),
            selection_handle_color: spec_text_view(self.selection_handle_color),
            default_tool_color: spec_text_view(self.default_tool_color),
            default_text_size: self.default_text_size,
            default_stroke_width: self.default_stroke_width,
            tool_color_palette: spec_texts_view(self.tool_color_palette),
            stroke_width_presets: spec_numbers_view(self.stroke_width_presets),
            text_size_presets: spec_numbers_view(self.text_size_presets),
        }
    }
}

impl Default for EditorDefaults {
    fn default() -> (d: Self)
        ensures
            d@ == (EditorDefaultsView {
                rectangle_border_radius: None,
                selection_drag_fill_color: None,
                selection_drag_stroke_color: None,
                selection_outline_color: None,
                selection_handle_color: None,
                default_tool_color: None,
                default_text_size: None,
                default_stroke_width: None,
                tool_color_palette: None,
                stroke_width_presets: None,
                text_size_presets: None,
            }),
    {
        EditorDefaults {
            rectangle_border_radius: None,
            selection_drag_fill_color: None,
            selection_drag_stroke_color: None,
            selection_outline_color: None,
            selection_handle_color: None,
            default_tool_color: None,
            default_text_size: None,
            default_stroke_width: None,
            tool_color_palette: None,
            stroke_width_presets: None,
            text_size_presets: None,
        }
    }
}

/// Editor defaults that apply in one mode only.
#[derive(Debug, Clone)]
pub struct EditorModeDefaults {
    pub dark: EditorDefaults,
    pub light: EditorDefaults,
}

/// The theme configuration the editor reads.
#[derive(Debug, Clone)]
pub struct ThemeConfig {
    pub mode: ThemeMode,
    pub editor: EditorDefaults,
    pub editor_modes: Option<EditorModeDefaults>,
}

pub open spec fn spec_pick<T>(specific: Option<T>, base: Option<T>) -> Option<T> {
    if specific is Some {
        specific
    } else {
        base
    }
}

/// Each setting of `specific` where it has one, else that of `base`.
pub open spec fn spec_merge_defaults(
    specific: EditorDefaultsView,
    base: EditorDefaultsView,
) -> EditorDefaultsView {
    EditorDefaultsView {
        rectangle_border_radius: spec_pick(
            specific.rectangle_border_radius,
            base.rectangle_border_radius,
        ),
        selection_drag_fill_color: spec_pick(
            specific.selection_drag_fill_color,
            base.selection_drag_fill_color,
        ),
        selection_drag_stroke_color: spec_pick(
            specific.selection_drag_stroke_color,
            base.selection_drag_stroke_color,
        ),
        selection_outline_color: spec_pick(
            specific.selection_outline_color,
            base.selection_outline_color,
        ),
        selection_handle_color: spec_pick(
            specific.selection_handle_color,
            base.selection_handle_color,
        ),
        default_tool_color: spec_pick(specific.default_tool_color, base.default_tool_color),
        default_text_size: spec_pick(specific.default_text_size, base.default_text_size),
        default_stroke_width: spec_pick(specific.default_stroke_width, base.default_stroke_width),
        tool_color_palette: spec_pick(specific.tool_color_palette, base.tool_color_palette),
        stroke_width_presets: spec_pick(specific.stroke_width_presets, base.stroke_width_presets),
        text_size_presets: spec_pick(specific.text_size_presets, base.text_size_presets),
    }
}

/// The defaults in force in `mode`: the mode's own settings over the shared ones.
pub open spec fn spec_resolve_editor_defaults(
    mode: ThemeMode,
    base: EditorDefaultsView,
    modes: Option<(EditorDefaultsView, EditorDefaultsView)>,
) -> EditorDefaultsView {
    match modes {
        None => base,
        Some((dark, light)) => match mode {
            ThemeMode::Light => spec_merge_defaults(light, base),
            _ => spec_merge_defaults(dark, base),
        },
    }
}

pub open spec fn spec_modes_view(modes: Option<EditorModeDefaults>) -> Option<
    (EditorDefaultsView, EditorDefaultsView),
> {
    match modes {
        Some(m) => Some((m.dark@, m.light@)),
        None => None,
    }
}

fn pick_text(specific: &Option<String>, base: &Option<String>) -> (r: Option<String>)
    ensures
        spec_text_view(r) == spec_pick(spec_text_view(*specific), spec_text_view(*base)),
{
    match specific {
        Some(s) => Some(copy_text(s.as_str())),
        None => match base {
            Some(s) => Some(copy_text(s.as_str())),
            None => None,
        },
    }
}

fn copy_texts(v: &Vec<String>) -> (r: Vec<String>)
    ensures
        spec_views(r@) == spec_views(v@),
{
    let mut r: Vec<String> = Vec::new();
    let mut i: usize = 0;
    while i < v.len()
        invariant
            0 <= i <= v.len(),
            r@.len() == i,
            forall|j: int| 0 <= j < i ==> #[trigger] r@[j]@ == v@[j]@,
        decreases v.len() - i,
    {
        r.push(copy_text(v[i].as_str()));
        i = i + 1;
    }
    assert(spec_views(r@) =~= spec_views(v@));
    r
}

fn pick_texts(specific: &Option<Vec<String>>, base: &Option<Vec<String>>) -> (r: Option<
    Vec<String>,
>)
    ensures
        spec_texts_view(r) == spec_pick(spec_texts_view(*specific), spec_texts_view(*base)),
{
    match specific {
        Some(v) => Some(copy_texts(v)),
        None => match base {
            Some(v) => Some(copy_texts(v)),
            None => None,
        },
    }
}

fn copy_numbers(v: &Vec<i64>) -> (r: Vec<i64>)
    ensures
        r@ == v@,
{
    let mut r: Vec<i64> = Vec::new();
    let mut i: usize = 0;
    while i < v.len()
        invariant
            0 <= i <= v.len(),
            r@ == v@.subrange(0, i as int),
        decreases v.len() - i,
    {
        r.push(v[i]);
        i = i + 1;
        assert(r@ =~= v@.subrange(0, i as int));
    }
    assert(v@.subrange(0, i as int) =~= v@);
    r
}

fn pick_numbers(specific: &Option<Vec<i64>>, base: &Option<Vec<i64>>) -> (r: Option<Vec<i64>>)
    ensures
        spec_numbers_view(r) == spec_pick(spec_numbers_view(*specific), spec_numbers_view(*base)),
{
    match specific {
        Some(v) => Some(copy_numbers(v)),
        None => match base {
            Some(v) => Some(copy_numbers(v)),
            None => None,
        },
    }
}

fn merge_defaults(specific: &EditorDefaults, base: &EditorDefaults) -> (d: EditorDefaults)
    ensures
        d@ == spec_merge_defaults(specific@, base@),
{
    EditorDefaults {
        rectangle_border_radius: if specific.rectangle_border_radius.is_some() {
            specific.rectangle_border_radius
        } else {
            base.rectangle_border_radius
        },
        selection_drag_fill_color: pick_text(
            &specific.selection_drag_fill_color,
            &base.selection_drag_fill_color,
        ),
        selection_drag_stroke_color: pick_text(
            &specific.selection_drag_stroke_color,
            &base.selection_drag_stroke_color,
        ),
        selection_outline_color: pick_text(
            &specific.selection_outline_color,
            &base.selection_outline_color,
        ),
        selection_handle_color: pick_text(
            &specific.selection_handle_color,
            &base.selection_handle_color,
        ),
        default_tool_color: pick_text(&specific.default_tool_color, &base.default_tool_color),
        default_text_size: if specific.default_text_size.is_some() {
            specific.default_text_size
        } else {
            base.default_text_size
        },
        default_stroke_width: if specific.default_stroke_width.is_some() {
            specific.default_stroke_width
        } else {
            base.default_stroke_width
        },
        tool_color_palette: pick_texts(&specific.tool_color_palette, &base.tool_color_palette),
        stroke_width_presets: pick_numbers(
            &specific.stroke_width_presets,
            &base.stroke_width_presets,
        ),
        text_size_presets: pick_numbers(&specific.text_size_presets, &base.text_size_presets),
    }
}

/// The editor defaults in force in `mode`: where per-mode defaults are configured, the
/// settings of that mode (dark for `Dark` and `System`) over the shared ones.
pub fn resolve_editor_defaults(
    mode: ThemeMode,
    base: &EditorDefaults,
    modes: Option<&EditorModeDefaults>,
) -> (d: EditorDefaults)
    ensures
        d@ == spec_resolve_editor_defaults(
            mode,
            base@,
            match modes {
                Some(m) => Some((m.dark@, m.light@)),
                None => None,
            },
        ),
{
    match modes {
        None => merge_defaults(&EditorDefaults::default(), base),
        Some(m) => match mode {
            ThemeMode::Light => merge_defaults(&m.light, base),
            ThemeMode::Dark | ThemeMode::System => merge_defaults(&m.dark, base),
        },
    }
}

/// What the editor draws from the theme's editor defaults.
#[derive(Debug, Clone)]
pub struct EditorThemeOverrides {
    pub rectangle_border_radius: Option<u16>,
    pub selection_palette: EditorSelectionPalette,
    pub default_tool_color: Option<Color>,
    pub default_text_size: Option<u8>,
    pub default_stroke_width: Option<u8>,
    pub tool_color_palette: Option<Vec<StrokeColorPreset>>,
    pub stroke_width_presets: Option<Vec<u8>>,
    pub text_size_presets: Option<Vec<u8>>,
}

/// Whether reading every color of `d` completes (no byte slicing of a value would fail).
pub open spec fn spec_defaults_readable(d: EditorDefaultsView) -> bool {
    &&& (d.selection_drag_fill_color matches Some(v) ==> spec_rgba_defined(v))
    &&& (d.selection_drag_stroke_color matches Some(v) ==> spec_rgba_defined(v))
    &&& (d.selection_outline_color matches Some(v) ==> spec_rgba_defined(v))
    &&& (d.selection_handle_color matches Some(v) ==> spec_rgba_defined(v))
    &&& (d.default_tool_color matches Some(v) ==> spec_rgb_defined(v))
    &&& (d.tool_color_palette matches Some(v) ==> spec_palette_defined(v))
}

/// The selection palette of `mode` with each color that `d` sets validly replaced.
pub open spec fn spec_overridden_palette(
    d: EditorDefaultsView,
    mode: ThemeMode,
) -> EditorSelectionPalette {
    let p = spec_selection_palette(mode);
    EditorSelectionPalette {
        drag_fill: spec_color_override(d.selection_drag_fill_color, p.drag_fill),
        drag_stroke: spec_color_override(d.selection_drag_stroke_color, p.drag_stroke),
        selected_outline: spec_color_override(d.selection_outline_color, p.selected_outline),
        resize_handle_fill: spec_color_override(d.selection_handle_color, p.resize_handle_fill),
    }
}

pub open spec fn spec_numeric_override(values: Option<Seq<i64>>, min: int, max: int) -> Option<
    Seq<u8>,
> {
    match values {
        Some(v) => spec_numeric_presets(v, min, max),
        None => None,
    }
}

pub open spec fn spec_palette_override(values: Option<Seq<Seq<char>>>) -> Option<
    Seq<(u8, u8, u8)>,
> {
    match values {
        Some(v) => spec_palette_presets(v),
        None => None,
    }
}

/// Whether the palette presets match the colors read from the configuration.
pub open spec fn spec_palette_matches(
    p: Option<Vec<StrokeColorPreset>>,
    rgbs: Option<Seq<(u8, u8, u8)>>,
) -> bool {
    match (p, rgbs) {
        (Some(v), Some(r)) => spec_presets_are(v@, r),
        (None, None) => true,
        _ => false,
    }
}

/// The overrides the editor draws from `defaults` in `mode`.
pub fn editor_theme_overrides_from(defaults: &EditorDefaults, mode: ThemeMode) -> (o:
    EditorThemeOverrides)
    requires
        spec_defaults_readable(defaults@),
    ensures
        o.rectangle_border_radius == defaults.rectangle_border_radius,
        o.selection_palette == spec_overridden_palette(defaults@, mode),
        o.default_tool_color == (match defaults@.default_tool_color {
            Some(v) => spec_parse_hex_rgb(v),
            None => None,
        }),
        o.default_text_size == defaults.default_text_size,
        o.default_stroke_width == defaults.default_stroke_width,
        spec_palette_matches(
            o.tool_color_palette,
            spec_palette_override(defaults@.tool_color_palette),
        ),
        spec_numbers_view(o.stroke_width_presets) == spec_numeric_override(
            defaults@.stroke_width_presets,
            MIN_STROKE_WIDTH_PRESET as int,
            MAX_STROKE_WIDTH_PRESET as int,
        ),
        spec_numbers_view(o.text_size_presets) == spec_numeric_override(
            defaults@.text_size_presets,
            MIN_TEXT_SIZE_PRESET as int,
            MAX_TEXT_SIZE_PRESET as int,
        ),
{
    let mut selection_palette = EditorSelectionPalette::for_theme_mode(mode);
    apply_selection_color_override(
        match &defaults.selection_drag_fill_color {
            Some(v) => Some(v.as_str()),
            None => None,
        },
        &mut selection_palette.drag_fill,
    );
    apply_selection_color_override(
        match &defaults.selection_drag_stroke_color {
            Some(v) => Some(v.as_str()),
            None => None,
        },
        &mut selection_palette.drag_stroke,
    );
    apply_selection_color_override(
        match &defaults.selection_outline_color {
            Some(v) => Some(v.as_str()),
            None => None,
        },
        &mut selection_palette.selected_outline,
    );
    apply_selection_color_override(
        match &defaults.selection_handle_color {
            Some(v) => Some(v.as_str()),
            None => None,
        },
        &mut selection_palette.resize_handle_fill,
    );
    let default_tool_color = match &defaults.default_tool_color {
        Some(v) => parse_hex_rgb(v.as_str()),
        None => None,
    };
    let tool_color_palette = match &defaults.tool_color_palette {
        Some(v) => parse_color_palette_presets(v),
        None => None,
    };
    let stroke_width_presets = match &defaults.stroke_width_presets {
        Some(v) => parse_numeric_presets(v, MIN_STROKE_WIDTH_PRESET, MAX_STROKE_WIDTH_PRESET),
        None => None,
    };
    let text_size_presets = match &defaults.text_size_presets {
        Some(v) => parse_numeric_presets(v, MIN_TEXT_SIZE_PRESET, MAX_TEXT_SIZE_PRESET),
        None => None,
    };
    EditorThemeOverrides {
        rectangle_border_radius: defaults.rectangle_border_radius,
        selection_palette,
        default_tool_color,
        default_text_size: defaults.default_text_size,
        default_stroke_width: defaults.default_stroke_width,
        tool_color_palette,
        stroke_width_presets,
        text_size_presets,
    }
}

/// The theme state that the editor takes from the configuration in a resolved mode.
#[derive(Debug, Clone)]
pub struct ResolvedThemeRuntime {
    pub editor_theme_overrides: EditorThemeOverrides,
}

/// Resolves the editor's theme state for `mode`: the mode's editor defaults, then the
/// overrides drawn from them.
pub fn resolve_theme_runtime(theme_config: &ThemeConfig, mode: ThemeMode) -> (r:
    ResolvedThemeRuntime)
    requires
        spec_defaults_readable(
            spec_resolve_editor_defaults(
                mode,
                theme_config.editor@,
                spec_modes_view(theme_config.editor_modes),
            ),
        ),
    ensures
        ({
            let d = spec_resolve_editor_defaults(
                mode,
                theme_config.editor@,
                spec_modes_view(theme_config.editor_modes),
            );
            &&& r.editor_theme_overrides.rectangle_border_radius == d.rectangle_border_radius
            &&& r.editor_theme_overrides.selection_palette == spec_overridden_palette(d, mode)
            &&& r.editor_theme_overrides.default_tool_color == (match d.default_tool_color {
                Some(v) => spec_parse_hex_rgb(v),
                None => None,
            })
            &&& r.editor_theme_overrides.default_text_size == d.default_text_size
            &&& r.editor_theme_overrides.default_stroke_width == d.default_stroke_width
            &&& spec_palette_matches(
                r.editor_theme_overrides.tool_color_palette,
                spec_palette_override(d.tool_color_palette),
            )
            &&& spec_numbers_view(r.editor_theme_overrides.stroke_width_presets)
                == spec_numeric_override(
                d.stroke_width_presets,
                MIN_STROKE_WIDTH_PRESET as int,
                MAX_STROKE_WIDTH_PRESET as int,
            )
            &&& spec_numbers_view(r.editor_theme_overrides.text_size_presets)
                == spec_numeric_override(
                d.text_size_presets,
                MIN_TEXT_SIZE_PRESET as int,
                MAX_TEXT_SIZE_PRESET as int,
            )
        }),
{
    let modes = match &theme_config.editor_modes {
        Some(m) => Some(m),
        None => None,
    };
    let effective = resolve_editor_defaults(mode, &theme_config.editor, modes);
    ResolvedThemeRuntime { editor_theme_overrides: editor_theme_overrides_from(&effective, mode) }
}

/// The mode a desktop theme's name suggests: trimmed and lowered, a name holding `dark` is
/// dark, else one holding `light` is light; an empty or other name suggests none.
pub open spec fn spec_mode_from_theme_name(name: Seq<char>) -> Option<ThemeMode> {
    let n = spec_ascii_lowercase(spec_trim(name));
    if n.len() == 0 {
        None
    } else if spec_contains(n, seq!['d', 'a', 'r', 'k']) {
        Some(ThemeMode::Dark)
    } else if spec_contains(n, seq!['l', 'i', 'g', 'h', 't']) {
        Some(ThemeMode::Light)
    } else {
        None
    }
}

pub fn mode_from_theme_name(theme_name: &str) -> (r: Option<ThemeMode>)
    ensures
        r == spec_mode_from_theme_name(theme_name@),
{
    let trimmed = trimmed_chars(theme_name);
    let normalized = ascii_lowercase_chars(&trimmed);
    if normalized.len() == 0 {
        return None;
    }
    let dark: Vec<char> = vec!['d', 'a', 'r', 'k'];
    let light: Vec<char> = vec!['l', 'i', 'g', 'h', 't'];
    assert(dark@ =~= seq!['d', 'a', 'r', 'k']);
    assert(light@ =~= seq!['l', 'i', 'g', 'h', 't']);
    if contains_chars(&normalized, &dark) {
        return Some(ThemeMode::Dark);
    }
    if contains_chars(&normalized, &light) {
        return Some(ThemeMode::Light);
    }
    None
}

/// What the desktop's settings say of its color scheme: the interface color scheme where
/// the setting exists (`2` forces dark, `3` forces light), the theme's name, and whether
/// dark applications are preferred.
#[derive(Debug, Clone)]
pub struct SystemThemeSettings {
    pub color_scheme: Option<i32>,
    pub theme_name: Option<String>,
    pub prefer_dark_theme: bool,
}

/// The mode the desktop settings imply: a forced scheme decides (any other scheme value
/// gives none); else the theme's name where it suggests one; else the dark preference.
pub open spec fn spec_system_theme_mode(
    color_scheme: Option<i32>,
    theme_name: Option<Seq<char>>,
    prefer_dark: bool,
) -> Option<ThemeMode> {
    match color_scheme {
        Some(scheme) => if scheme == 3 {
            Some(ThemeMode::Light)
        } else if scheme == 2 {
            Some(ThemeMode::Dark)
        } else {
            None
        },
        None => match theme_name {
            Some(n) if spec_mode_from_theme_name(n) is Some => spec_mode_from_theme_name(n),
            _ => if prefer_dark {
                Some(ThemeMode::Dark)
            } else {
                Some(ThemeMode::Light)
            },
        },
    }
}

pub fn system_theme_mode_from_settings(settings: &SystemThemeSettings) -> (r: Option<ThemeMode>)
    ensures
        r == spec_system_theme_mode(
            settings.color_scheme,
            spec_text_view(settings.theme_name),
            settings.prefer_dark_theme,
        ),
{
    match settings.color_scheme {
        Some(scheme) => {
            if scheme == 3 {
                return Some(ThemeMode::Light);
            } else if scheme == 2 {
                return Some(ThemeMode::Dark);
            } else {
                return None;
            }
        },
        None => {},
    }
    match &settings.theme_name {
        Some(name) => match mode_from_theme_name(name.as_str()) {
            Some(mode) => {
                return Some(mode);
            },
            None => {},
        },
        None => {},
    }
    if settings.prefer_dark_theme {
        Some(ThemeMode::Dark)
    } else {
        Some(ThemeMode::Light)
    }
}

/// The mode the editor runs in: an explicit mode stays; `System` follows the desktop
/// settings where they are available and imply a mode, else it is dark.
pub open spec fn spec_runtime_theme_mode(
    mode: ThemeMode,
    system: Option<ThemeMode>,
) -> ThemeMode {
    match mode {
        ThemeMode::Light => ThemeMode::Light,
        ThemeMode::Dark => ThemeMode::Dark,
        ThemeMode::System => match system {
            Some(m) => m,
            None => ThemeMode::Dark,
        },
    }
}

/// A forced interface color scheme decides the system mode whatever the theme's name and
/// the dark preference: `2` (force dark) gives dark and `3` (force light) gives light, and
/// so does the `System` mode that follows it; any other scheme value implies no mode, and
/// `System` then runs dark. Without a scheme or a theme name the dark preference decides.
/// An explicit light or dark mode stays whatever the desktop says.
pub proof fn lemma_forced_color_scheme_decides(
    theme_name: Option<Seq<char>>,
    prefer_dark: bool,
    scheme: i32,
    system: Option<ThemeMode>,
)
    ensures
        spec_system_theme_mode(Some(2i32), theme_name, prefer_dark) == Some(ThemeMode::Dark),
        spec_system_theme_mode(Some(3i32), theme_name, prefer_dark) == Some(ThemeMode::Light),
        spec_runtime_theme_mode(ThemeMode::System, spec_system_theme_mode(Some(2i32), theme_name, prefer_dark))
            == ThemeMode::Dark,
        spec_runtime_theme_mode(ThemeMode::System, spec_system_theme_mode(Some(3i32), theme_name, prefer_dark))
            == ThemeMode::Light,
        scheme != 2 && scheme != 3 ==> spec_system_theme_mode(Some(scheme), theme_name, prefer_dark) is None
            && spec_runtime_theme_mode(ThemeMode::System, spec_system_theme_mode(Some(scheme), theme_name, prefer_dark))
            == ThemeMode::Dark,
        spec_system_theme_mode(None, None, true) == Some(ThemeMode::Dark),
        spec_system_theme_mode(None, None, false) == Some(ThemeMode::Light),
        spec_runtime_theme_mode(ThemeMode::Light, system) == ThemeMode::Light,
        spec_runtime_theme_mode(ThemeMode::Dark, system) == ThemeMode::Dark,
        spec_runtime_theme_mode(ThemeMode::System, None) == ThemeMode::Dark,
{
}

pub fn resolve_runtime_theme_mode(mode: ThemeMode, settings: Option<&SystemThemeSettings>) -> (r:
    ThemeMode)
    ensures
        r == spec_runtime_theme_mode(
            mode,
            match settings {
                Some(s) => spec_system_theme_mode(
                    s.color_scheme,
                    spec_text_view(s.theme_name),
                    s.prefer_dark_theme,
                ),
                None => None,
            },
        ),
{
    match mode {
        ThemeMode::Light => ThemeMode::Light,
        ThemeMode::Dark => ThemeMode::Dark,
        ThemeMode::System => {
            let system = match settings {
                Some(s) => system_theme_mode_from_settings(s),
                None => None,
            };
            match system {
                Some(m) => m,
                None => ThemeMode::Dark,
            }
        },
    }
}

} // verus!
