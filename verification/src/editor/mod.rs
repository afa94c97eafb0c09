//! Editor viewport (zoom and pan), input modes and the editor's requests.

pub mod tools;
pub mod render;
pub mod history;
pub mod interaction;
pub mod hit_test;
pub mod gesture;
pub mod commands;
pub mod output;

pub use tools::{EditorTools, ToolError, ToolKind, ToolObject, ToolOptionVisibility};

use vstd::prelude::*;

use crate::arith::{sat_add_i32, spec_clamp, spec_sat_i32};
use crate::chars::{append_chars, chars_of, debug_escape_chars, spec_debug_escape, string_from_chars};
use crate::clipboard::{spec_clipboard_error_text, ClipboardError};
use crate::preview::action_error_text;
use crate::storage::StorageError;

verus! {

/// Smallest zoom the editor allows, in percent.
pub const VIEWPORT_ZOOM_MIN_PERCENT: u16 = 1;
/// Largest zoom the editor allows, in percent.
pub const VIEWPORT_ZOOM_MAX_PERCENT: u16 = 1600;

/// The ladder of zoom levels that zoom in and zoom out step along.
#[verifier::opaque]
pub open spec fn spec_zoom_levels() -> Seq<u16> {
    seq![
        1u16, 2, 3, 4, 5, 8, 10, 12, 16, 20, 25, 33, 50, 67, 75, 80, 90, 100, 110, 125, 150, 175,
        200, 250, 300, 400, 500, 600, 800, 1000, 1200, 1600,
    ]
}

fn zoom_levels() -> (v: Vec<u16>)
    ensures
        v@ == spec_zoom_levels(),
{
    let v: Vec<u16> = vec![
        1u16, 2, 3, 4, 5, 8, 10, 12, 16, 20, 25, 33, 50, 67, 75, 80, 90, 100, 110, 125, 150, 175,
        200, 250, 300, 400, 500, 600, 800, 1000, 1200, 1600,
    ];
    proof {
        reveal(spec_zoom_levels);
    }
    assert(v@ =~= spec_zoom_levels());
    v
}


/// The first level at or after position `i` of the ladder that is above `current`,
/// or the maximum zoom when there is none.
pub open spec fn spec_first_level_above(current: u16, i: int) -> u16
    decreases spec_zoom_levels().len() - i,
{
    if i < 0 || i >= spec_zoom_levels().len() {
        VIEWPORT_ZOOM_MAX_PERCENT
    } else if spec_zoom_levels()[i] > current {
        spec_zoom_levels()[i]
    } else {
        spec_first_level_above(current, i + 1)
    }
}

/// The last level before position `i` of the ladder that is below `current`,
/// or the minimum zoom when there is none.
pub open spec fn spec_last_level_below(current: u16, i: int) -> u16
    decreases i,
{
    if i <= 0 || i > spec_zoom_levels().len() {
        VIEWPORT_ZOOM_MIN_PERCENT
    } else if spec_zoom_levels()[i - 1] < current {
        spec_zoom_levels()[i - 1]
    } else {
        spec_last_level_below(current, i - 1)
    }
}

/// The zoom after one step in from `current`.
pub open spec fn spec_zoom_in_level(current: u16) -> u16 {
    spec_first_level_above(current, 0)
}

/// The zoom after one step out from `current`.
pub open spec fn spec_zoom_out_level(current: u16) -> u16 {
    spec_last_level_below(current, spec_zoom_levels().len() as int)
}

fn clamp_zoom_percent(zoom_percent: u16) -> (z: u16)
    ensures
        z == spec_clamp(
            zoom_percent as int,
            VIEWPORT_ZOOM_MIN_PERCENT as int,
            VIEWPORT_ZOOM_MAX_PERCENT as int,
        ),
{
    if zoom_percent < VIEWPORT_ZOOM_MIN_PERCENT {
        VIEWPORT_ZOOM_MIN_PERCENT
    } else if zoom_percent > VIEWPORT_ZOOM_MAX_PERCENT {
        VIEWPORT_ZOOM_MAX_PERCENT
    } else {
        zoom_percent
    }
}

fn next_zoom_in_level(current_zoom_percent: u16) -> (z: u16)
    ensures
        z == spec_zoom_in_level(current_zoom_percent),
{
    let levels = zoom_levels();
    let mut i: usize = 0;
    while i < levels.len()
        invariant
            levels@ == spec_zoom_levels(),
            0 <= i <= levels.len(),
            spec_first_level_above(current_zoom_percent, i as int) == spec_zoom_in_level(
                current_zoom_percent,
            ),
        decreases levels.len() - i,
    {
        if levels[i] > current_zoom_percent {
            return levels[i];
        }
        i = i + 1;
    }
    VIEWPORT_ZOOM_MAX_PERCENT
}

fn next_zoom_out_level(current_zoom_percent: u16) -> (z: u16)
    ensures
        z == spec_zoom_out_level(current_zoom_percent),
{
    let levels = zoom_levels();
    let mut i: usize = levels.len();
    while i > 0
        invariant
            levels@ == spec_zoom_levels(),
            0 <= i <= levels.len(),
            spec_last_level_below(current_zoom_percent, i as int) == spec_zoom_out_level(
                current_zoom_percent,
            ),
        decreases i,
    {
        if levels[i - 1] < current_zoom_percent {
            return levels[i - 1];
        }
        i = i - 1;
    }
    VIEWPORT_ZOOM_MIN_PERCENT
}

} // verus!

verus! {

proof fn lemma_zoom_levels_steps()
    ensures
        spec_zoom_levels().len() == 32,
        forall|k: int| 0 <= k < 31 ==> #[trigger] spec_zoom_levels()[k] < spec_zoom_levels()[k + 1],
        spec_zoom_levels()[0] == 1,
        spec_zoom_levels()[31] == 1600,
        forall|k: int| 0 <= k < 32 ==> 1 <= #[trigger] spec_zoom_levels()[k] <= 1600,
{
    reveal(spec_zoom_levels);
    let s = spec_zoom_levels();
    assert(s[0] == 1 && s[1] == 2 && s[2] == 3 && s[3] == 4 && s[4] == 5 && s[5] == 8);
    assert(s[6] == 10 && s[7] == 12 && s[8] == 16 && s[9] == 20 && s[10] == 25 && s[11] == 33);
    assert(s[12] == 50 && s[13] == 67 && s[14] == 75 && s[15] == 80 && s[16] == 90 && s[17] == 100);
    assert(s[18] == 110 && s[19] == 125 && s[20] == 150 && s[21] == 175 && s[22] == 200);
    assert(s[23] == 250 && s[24] == 300 && s[25] == 400 && s[26] == 500 && s[27] == 600);
    assert(s[28] == 800 && s[29] == 1000 && s[30] == 1200 && s[31] == 1600);
}

} // verus!

verus! {

proof fn lemma_zoom_levels_sorted(i: int, j: int)
    requires
        0 <= i < j < 32,
    ensures
        spec_zoom_levels()[i] < spec_zoom_levels()[j],
    decreases j - i,
{
    lemma_zoom_levels_steps();
    if j - i > 1 {
        lemma_zoom_levels_sorted(i, j - 1);
        assert(spec_zoom_levels()[j - 1] < spec_zoom_levels()[j]);
    } else {
        assert(spec_zoom_levels()[i] < spec_zoom_levels()[i + 1]);
    }
}

#[verifier::spinoff_prover]
#[verifier::rlimit(40)]
proof fn lemma_first_level_above(current: u16, i: int)
    requires
        0 <= i <= 32,
    ensures
        VIEWPORT_ZOOM_MIN_PERCENT <= spec_first_level_above(current, i)
            <= VIEWPORT_ZOOM_MAX_PERCENT,
        current < VIEWPORT_ZOOM_MAX_PERCENT ==> spec_first_level_above(current, i) > current,
        forall|j: int|
            i <= j < 32 && spec_zoom_levels()[j] > current ==> spec_zoom_levels()[j]
                >= spec_first_level_above(current, i),
        (forall|j: int| i <= j < 32 ==> #[trigger] spec_zoom_levels()[j] <= current) ==> spec_first_level_above(current, i)
            == VIEWPORT_ZOOM_MAX_PERCENT,
        (exists|j: int| i <= j < 32 && #[trigger] spec_zoom_levels()[j] > current) ==> exists|k: int|
            i <= k < 32 && #[trigger] spec_zoom_levels()[k] > current && spec_zoom_levels()[k]
                == spec_first_level_above(current, i),
    decreases 32 - i,
{
    lemma_zoom_levels_steps();
    if i < 32 {
        lemma_first_level_above(current, i + 1);
        assert(spec_zoom_levels()[i] >= 1) by {
            if i > 0 {
                lemma_zoom_levels_sorted(0, i);
            }
        }
        assert(spec_zoom_levels()[i] <= 1600) by {
            if i < 31 {
                lemma_zoom_levels_sorted(i, 31);
            }
        }
        if spec_zoom_levels()[i] > current {
            assert forall|j: int|
                i <= j < 32 && #[trigger] spec_zoom_levels()[j] > current implies spec_zoom_levels()[j]
                >= spec_zoom_levels()[i] by {
                if j > i {
                    lemma_zoom_levels_sorted(i, j);
                }
            }
        } else {
            if exists|j: int| i <= j < 32 && #[trigger] spec_zoom_levels()[j] > current {
                let j = choose|j: int| i <= j < 32 && #[trigger] spec_zoom_levels()[j] > current;
                assert(i + 1 <= j);
            }
        }
    }
}

#[verifier::spinoff_prover]
#[verifier::rlimit(40)]
proof fn lemma_last_level_below(current: u16, i: int)
    requires
        0 <= i <= 32,
    ensures
        VIEWPORT_ZOOM_MIN_PERCENT <= spec_last_level_below(current, i)
            <= VIEWPORT_ZOOM_MAX_PERCENT,
        current > VIEWPORT_ZOOM_MIN_PERCENT ==> spec_last_level_below(current, i) < current,
        forall|j: int|
            0 <= j < i && spec_zoom_levels()[j] < current ==> spec_zoom_levels()[j]
                <= spec_last_level_below(current, i),
        (forall|j: int| 0 <= j < i ==> #[trigger] spec_zoom_levels()[j] >= current) ==> spec_last_level_below(current, i)
            == VIEWPORT_ZOOM_MIN_PERCENT,
        (exists|j: int| 0 <= j < i && #[trigger] spec_zoom_levels()[j] < current) ==> exists|k: int|
            0 <= k < i && #[trigger] spec_zoom_levels()[k] < current && spec_zoom_levels()[k]
                == spec_last_level_below(current, i),
    decreases i,
{
    lemma_zoom_levels_steps();
    if i > 0 {
        lemma_last_level_below(current, i - 1);
        assert(spec_zoom_levels()[i - 1] >= 1) by {
            if i - 1 > 0 {
                lemma_zoom_levels_sorted(0, i - 1);
            }
        }
        assert(spec_zoom_levels()[i - 1] <= 1600) by {
            if i - 1 < 31 {
                lemma_zoom_levels_sorted(i - 1, 31);
            }
        }
        if spec_zoom_levels()[i - 1] < current {
            assert forall|j: int|
                0 <= j < i && #[trigger] spec_zoom_levels()[j] < current implies spec_zoom_levels()[j]
                <= spec_zoom_levels()[i - 1] by {
                if j < i - 1 {
                    lemma_zoom_levels_sorted(j, i - 1);
                }
            }
        } else {
            if exists|j: int| 0 <= j < i && #[trigger] spec_zoom_levels()[j] < current {
                let j = choose|j: int| 0 <= j < i && #[trigger] spec_zoom_levels()[j] < current;
                assert(j < i - 1);
            }
        }
    }
}

/// Zooming in moves to the nearest ladder level above the current zoom: the smallest level
/// above it, or the maximum where no level is above; it stays in range, grows unless the
/// zoom is already at the maximum, and skips no ladder level.
pub proof fn lemma_zoom_in_steps_to_next_level(current: u16)
    ensures
        VIEWPORT_ZOOM_MIN_PERCENT <= spec_zoom_in_level(current) <= VIEWPORT_ZOOM_MAX_PERCENT,
        current < VIEWPORT_ZOOM_MAX_PERCENT ==> spec_zoom_in_level(current) > current,
        forall|j: int|
            0 <= j < spec_zoom_levels().len() && current < spec_zoom_levels()[j] ==> spec_zoom_in_level(current)
                <= spec_zoom_levels()[j],
        (exists|j: int| 0 <= j < spec_zoom_levels().len() && #[trigger] spec_zoom_levels()[j] > current) ==> exists|k: int|
            0 <= k < spec_zoom_levels().len() && #[trigger] spec_zoom_levels()[k] > current && spec_zoom_levels()[k]
                == spec_zoom_in_level(current),
        (forall|j: int| 0 <= j < spec_zoom_levels().len() ==> #[trigger] spec_zoom_levels()[j] <= current) ==> spec_zoom_in_level(
            current,
        ) == VIEWPORT_ZOOM_MAX_PERCENT,
{
    lemma_zoom_levels_steps();
    lemma_first_level_above(current, 0);
}

/// Zooming out moves to the nearest ladder level below the current zoom: the largest level
/// below it, or the minimum where no level is below; it stays in range, shrinks unless the
/// zoom is already at the minimum, and skips no ladder level.
pub proof fn lemma_zoom_out_steps_to_previous_level(current: u16)
    ensures
        VIEWPORT_ZOOM_MIN_PERCENT <= spec_zoom_out_level(current) <= VIEWPORT_ZOOM_MAX_PERCENT,
        current > VIEWPORT_ZOOM_MIN_PERCENT ==> spec_zoom_out_level(current) < current,
        forall|j: int|
            0 <= j < spec_zoom_levels().len() && spec_zoom_levels()[j] < current ==> spec_zoom_levels()[j]
                <= spec_zoom_out_level(current),
        (exists|j: int| 0 <= j < spec_zoom_levels().len() && #[trigger] spec_zoom_levels()[j] < current) ==> exists|k: int|
            0 <= k < spec_zoom_levels().len() && #[trigger] spec_zoom_levels()[k] < current && spec_zoom_levels()[k]
                == spec_zoom_out_level(current),
        (forall|j: int| 0 <= j < spec_zoom_levels().len() ==> #[trigger] spec_zoom_levels()[j] >= current) ==> spec_zoom_out_level(
            current,
        ) == VIEWPORT_ZOOM_MIN_PERCENT,
{
    lemma_zoom_levels_steps();
    lemma_last_level_below(current, 32);
}

} // verus!

verus! {

/// Zoom and pan of the editor canvas.
#[derive(Debug, Clone, Copy, PartialEq, Eq, Structural)]
pub struct EditorViewport {
    zoom_percent: u16,
    pan_x: i32,
    pan_y: i32,
}

/// Which exclusive input mode the editor is in.
#[derive(Debug, Clone, Copy, PartialEq, Eq, Structural)]
pub struct EditorInputMode {
    crop_active: bool,
    text_input_active: bool,
}

/// What the user asked the editor window to do.
#[derive(Debug, Clone, Copy, PartialEq, Eq, Structural)]
pub enum EditorAction {
    Save,
    Copy,
    CloseRequested,
}

/// An editor request bound to the capture it is about.
#[derive(Debug, Clone, PartialEq, Eq)]
pub enum EditorEvent {
    Save { capture_id: String },
    Copy { capture_id: String },
    CloseRequested { capture_id: String },
}

/// An editor event in the form `{:?}` gives it, `Save { capture_id: "..." }`, with the id
/// escaped as `spec_debug_escape` says.
pub open spec fn spec_editor_event_debug(e: EditorEvent) -> Seq<char> {
    let (name, id) = match e {
        EditorEvent::Save { capture_id } => ("Save"@, capture_id@),
        EditorEvent::Copy { capture_id } => ("Copy"@, capture_id@),
        EditorEvent::CloseRequested { capture_id } => ("CloseRequested"@, capture_id@),
    };
    name + " { capture_id: \""@ + spec_debug_escape(id) + "\" }"@
}

impl EditorEvent {
    /// The event in the form `{:?}` gives it; the id is escaped as `spec_debug_escape` says,
    /// which matches `{:?}` for every ASCII character.
    pub fn debug_text(&self) -> (s: String)
        ensures
            s@ == spec_editor_event_debug(*self),
    {
        let (name, id) = match self {
            EditorEvent::Save { capture_id } => ("Save", capture_id),
            EditorEvent::Copy { capture_id } => ("Copy", capture_id),
            EditorEvent::CloseRequested { capture_id } => ("CloseRequested", capture_id),
        };
        let mut v = chars_of(name);
        append_chars(&mut v, &chars_of(" { capture_id: \""));
        append_chars(&mut v, &debug_escape_chars(id.as_str()));
        append_chars(&mut v, &chars_of("\" }"));
        string_from_chars(&v)
    }
}

/// Why an editor request failed: the operation, the capture, and the backend's error.
#[derive(Debug, Clone)]
pub enum EditorActionError {
    StorageError { operation: &'static str, capture_id: String, source: StorageError },
    ClipboardError { operation: &'static str, capture_id: String, source: ClipboardError },
}

pub open spec fn spec_editor_action_error_text(e: EditorActionError) -> Seq<char> {
    match e {
        EditorActionError::StorageError { operation, capture_id, source } => "storage error while "@
            + operation@ + " "@ + capture_id@ + ": "@ + source.message@,
        EditorActionError::ClipboardError { operation, capture_id, source } =>
            "clipboard error while "@ + operation@ + " "@ + capture_id@ + ": "@
            + spec_clipboard_error_text(source),
    }
}

impl EditorActionError {
    /// The error as shown to the user.
    pub fn describe(&self) -> (s: String)
        ensures
            s@ == spec_editor_action_error_text(*self),
    {
        match self {
            EditorActionError::StorageError { operation, capture_id, source } => {
                let cause = source.describe();
                action_error_text("storage error while ", operation, capture_id.as_str(), cause.as_str())
            },
            EditorActionError::ClipboardError { operation, capture_id, source } => {
                let cause = source.describe();
                action_error_text("clipboard error while ", operation, capture_id.as_str(), cause.as_str())
            },
        }
    }
}

impl EditorViewport {
    /// The zoom in percent.
    pub closed spec fn spec_zoom(&self) -> u16 {
        self.zoom_percent
    }

    /// The horizontal pan offset.
    pub closed spec fn spec_pan_x(&self) -> i32 {
        self.pan_x
    }

    /// The vertical pan offset.
    pub closed spec fn spec_pan_y(&self) -> i32 {
        self.pan_y
    }

    /// A viewport at 100% with no pan.
    pub fn new() -> (v: Self)
        ensures
            v.spec_zoom() == 100,
            v.spec_pan_x() == 0,
            v.spec_pan_y() == 0,
    {
        EditorViewport { zoom_percent: 100, pan_x: 0, pan_y: 0 }
    }

    pub fn zoom_percent(&self) -> (z: u16)
        ensures
            z == self.spec_zoom(),
    {
        self.zoom_percent
    }

    pub fn pan_x(&self) -> (x: i32)
        ensures
            x == self.spec_pan_x(),
    {
        self.pan_x
    }

    pub fn pan_y(&self) -> (y: i32)
        ensures
            y == self.spec_pan_y(),
    {
        self.pan_y
    }

    pub fn min_zoom_percent() -> (z: u16)
        ensures
            z == VIEWPORT_ZOOM_MIN_PERCENT,
    {
        VIEWPORT_ZOOM_MIN_PERCENT
    }

    pub fn max_zoom_percent() -> (z: u16)
        ensures
            z == VIEWPORT_ZOOM_MAX_PERCENT,
    {
        VIEWPORT_ZOOM_MAX_PERCENT
    }

    /// Steps the zoom to the next ladder level above the (clamped) current zoom.
    pub fn zoom_in(&mut self)
        ensures
            final(self).spec_zoom() == spec_zoom_in_level(
                spec_clamp(
                    old(self).spec_zoom() as int,
                    VIEWPORT_ZOOM_MIN_PERCENT as int,
                    VIEWPORT_ZOOM_MAX_PERCENT as int,
                ) as u16,
            ),
            final(self).spec_pan_x() == old(self).spec_pan_x(),
            final(self).spec_pan_y() == old(self).spec_pan_y(),
    {
        self.zoom_percent = next_zoom_in_level(clamp_zoom_percent(self.zoom_percent));
    }

    /// Steps the zoom to the previous ladder level below the (clamped) current zoom.
    pub fn zoom_out(&mut self)
        ensures
            final(self).spec_zoom() == spec_zoom_out_level(
                spec_clamp(
                    old(self).spec_zoom() as int,
                    VIEWPORT_ZOOM_MIN_PERCENT as int,
                    VIEWPORT_ZOOM_MAX_PERCENT as int,
                ) as u16,
            ),
            final(self).spec_pan_x() == old(self).spec_pan_x(),
            final(self).spec_pan_y() == old(self).spec_pan_y(),
    {
        self.zoom_percent = next_zoom_out_level(clamp_zoom_percent(self.zoom_percent));
    }

    /// Sets the zoom, clamped into the supported range.
    pub fn set_zoom_percent(&mut self, zoom_percent: u16)
        ensures
            final(self).spec_zoom() == spec_clamp(
                zoom_percent as int,
                VIEWPORT_ZOOM_MIN_PERCENT as int,
                VIEWPORT_ZOOM_MAX_PERCENT as int,
            ),
            final(self).spec_pan_x() == old(self).spec_pan_x(),
            final(self).spec_pan_y() == old(self).spec_pan_y(),
    {
        self.zoom_percent = clamp_zoom_percent(zoom_percent);
    }

    /// Back to 100% zoom with no pan.
    pub fn set_actual_size(&mut self)
        ensures
            final(self).spec_zoom() == 100,
            final(self).spec_pan_x() == 0,
            final(self).spec_pan_y() == 0,
    {
        self.zoom_percent = 100;
        self.pan_x = 0;
        self.pan_y = 0;
    }

    /// Moves the pan offsets by the given deltas, saturating at the `i32` range.
    pub fn pan_by(&mut self, delta_x: i32, delta_y: i32)
        ensures
            final(self).spec_zoom() == old(self).spec_zoom(),
            final(self).spec_pan_x() == spec_sat_i32(old(self).spec_pan_x() + delta_x),
            final(self).spec_pan_y() == spec_sat_i32(old(self).spec_pan_y() + delta_y),
    {
        if delta_x == 0 && delta_y == 0 {
            return;
        }
        self.pan_x = sat_add_i32(self.pan_x, delta_x);
        self.pan_y = sat_add_i32(self.pan_y, delta_y);
    }

    /// Sets both pan offsets.
    pub fn set_pan(&mut self, pan_x: i32, pan_y: i32)
        ensures
            final(self).spec_zoom() == old(self).spec_zoom(),
            final(self).spec_pan_x() == pan_x,
            final(self).spec_pan_y() == pan_y,
    {
        self.pan_x = pan_x;
        self.pan_y = pan_y;
    }

    /// Pans one step to the right.
    pub fn pan_right(&mut self)
        ensures
            final(self).spec_zoom() == old(self).spec_zoom(),
            final(self).spec_pan_x() == spec_sat_i32(old(self).spec_pan_x() + 48),
            final(self).spec_pan_y() == old(self).spec_pan_y(),
    {
        self.pan_by(48, 0);
    }

    /// Pans one step down.
    pub fn pan_down(&mut self)
        ensures
            final(self).spec_zoom() == old(self).spec_zoom(),
            final(self).spec_pan_x() == old(self).spec_pan_x(),
            final(self).spec_pan_y() == spec_sat_i32(old(self).spec_pan_y() + 48),
    {
        self.pan_by(0, 48);
    }
}

impl Default for EditorViewport {
    fn default() -> (v: Self)
        ensures
            v.spec_zoom() == 100,
            v.spec_pan_x() == 0,
            v.spec_pan_y() == 0,
    {
        Self::new()
    }
}

impl EditorInputMode {
    /// Crop and text input are never active together.
    #[verifier::type_invariant]
    spec fn exclusive(&self) -> bool {
        !(self.crop_active && self.text_input_active)
    }

    /// Whether the crop interaction is active.
    pub closed spec fn spec_crop(&self) -> bool {
        self.crop_active
    }

    /// Whether a text box is taking keyboard input.
    pub closed spec fn spec_text(&self) -> bool {
        self.text_input_active
    }

    pub fn new() -> (m: Self)
        ensures
            !m.spec_crop(),
            !m.spec_text(),
    {
        EditorInputMode { crop_active: false, text_input_active: false }
    }

    pub fn reset(&mut self)
        ensures
            !final(self).spec_crop(),
            !final(self).spec_text(),
    {
        self.crop_active = false;
        self.text_input_active = false;
    }

    /// Turns crop on; crop and text input never run together.
    pub fn activate_crop(&mut self)
        ensures
            final(self).spec_crop(),
            !final(self).spec_text(),
    {
        self.text_input_active = false;
        self.crop_active = true;
    }

    pub fn deactivate_crop(&mut self)
        ensures
            !final(self).spec_crop(),
            final(self).spec_text() == old(self).spec_text(),
    {
        self.crop_active = false;
    }

    /// Turns text input on; crop and text input never run together.
    pub fn start_text_input(&mut self)
        ensures
            final(self).spec_text(),
            !final(self).spec_crop(),
    {
        self.crop_active = false;
        self.text_input_active = true;
    }

    pub fn end_text_input(&mut self)
        ensures
            !final(self).spec_text(),
            final(self).spec_crop() == old(self).spec_crop(),
    {
        self.text_input_active = false;
    }

    /// Whether crop is active; it never is while text input is.
    pub fn crop_active(&self) -> (b: bool)
        ensures
            b == self.spec_crop(),
            b ==> !self.spec_text(),
    {
        proof {
            use_type_invariant(self);
        }
        self.crop_active
    }

    /// Whether text input is active; it never is while crop is.
    pub fn text_input_active(&self) -> (b: bool)
        ensures
            b == self.spec_text(),
            b ==> !self.spec_crop(),
    {
        proof {
            use_type_invariant(self);
        }
        self.text_input_active
    }
}

impl Default for EditorInputMode {
    fn default() -> (m: Self)
        ensures
            !m.spec_crop(),
            !m.spec_text(),
    {
        Self::new()
    }
}

} // verus!
