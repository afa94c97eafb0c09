//! The compositor's monitor and client status, as read from its JSON reports, and what the
//! capture flows take from them.

use vstd::prelude::*;

use super::CaptureError;
use crate::chars::{append_chars, chars_of, string_from_chars};
use crate::numbers::{
    decimal_2_chars, decimal_chars, signed_decimal_chars, spec_decimal, spec_decimal_2,
    spec_signed_decimal,
};
use crate::text::{join_lines, spec_char_vecs, spec_join_lines, spec_trim, trimmed_chars};

verus! {

/// A workspace as the compositor reports it.
#[derive(Debug, Clone, Copy, PartialEq, Eq, Structural)]
pub struct WorkspaceStatus {
    pub id: Option<i32>,
}

/// One monitor of the compositor's monitor report.
#[derive(Debug, Clone)]
pub struct MonitorStatus {
    pub focused: bool,
    pub name: Option<String>,
    pub x: Option<i32>,
    pub y: Option<i32>,
    pub width: Option<i32>,
    pub height: Option<i32>,
    pub active_workspace: Option<WorkspaceStatus>,
}

/// The monitor that has focus, with its position, positive size where known, and active
/// workspace.
#[derive(Debug, Clone)]
pub struct FocusedMonitor {
    pub name: String,
    pub x: i32,
    pub y: i32,
    pub width: Option<u32>,
    pub height: Option<u32>,
    pub active_workspace_id: Option<i32>,
}

/// One client window of the compositor's client report.
#[derive(Debug, Clone)]
pub struct WindowClientStatus {
    pub title: Option<String>,
    pub class: Option<String>,
    pub mapped: Option<bool>,
    pub hidden: Option<bool>,
    pub at: Option<(i32, i32)>,
    pub size: Option<(i32, i32)>,
    pub workspace: Option<WorkspaceStatus>,
}

/// A window offered for selection: its geometry and the label shown for it.
#[derive(Debug, Clone)]
pub struct WindowSelectionCandidate {
    pub x: i32,
    pub y: i32,
    pub width: u32,
    pub height: u32,
    pub label: String,
}

/// A reported size, kept where it is positive.
pub open spec fn spec_monitor_dimension(value: Option<i32>) -> Option<u32> {
    match value {
        Some(v) => if v > 0 {
            Some(v as u32)
        } else {
            None
        },
        None => None,
    }
}

pub fn normalize_monitor_dimension(value: Option<i32>) -> (r: Option<u32>)
    ensures
        r == spec_monitor_dimension(value),
{
    match value {
        Some(v) => if v > 0 {
            Some(v as u32)
        } else {
            None
        },
        None => None,
    }
}

/// Index of the first focused monitor at or after `i`.
pub open spec fn spec_first_focused(monitors: Seq<MonitorStatus>, i: int) -> Option<int>
    decreases monitors.len() - i,
{
    if i < 0 || i >= monitors.len() {
        None
    } else if monitors[i].focused {
        Some(i)
    } else {
        spec_first_focused(monitors, i + 1)
    }
}

/// The active workspace of a monitor, where it is reported and not `0`.
pub open spec fn spec_active_workspace_id(m: MonitorStatus) -> Option<i32> {
    match m.active_workspace {
        Some(w) => match w.id {
            Some(id) => if id != 0 {
                Some(id)
            } else {
                None
            },
            None => None,
        },
        None => None,
    }
}

/// Whether `f` is what the capture takes from the monitor status `m`.
pub open spec fn spec_focused_monitor_from(f: FocusedMonitor, m: MonitorStatus) -> bool {
    &&& m.name matches Some(n) && f.name@ == n@
    &&& f.x == (match m.x {
        Some(v) => v,
        None => 0,
    })
    &&& f.y == (match m.y {
        Some(v) => v,
        None => 0,
    })
    &&& f.width == spec_monitor_dimension(m.width)
    &&& f.height == spec_monitor_dimension(m.height)
    &&& f.active_workspace_id == spec_active_workspace_id(m)
}

/// Whether the first focused monitor of a report has a usable (non-empty) name.
pub open spec fn spec_has_focused_monitor(monitors: Seq<MonitorStatus>) -> bool {
    match spec_first_focused(monitors, 0) {
        Some(k) => monitors[k].name matches Some(n) && n@.len() > 0,
        None => false,
    }
}

/// The focused monitor of a monitor report: the first one marked focused, which must have
/// a name; else `NoFocusedMonitor`.
pub fn select_focused_monitor(monitors: &Vec<MonitorStatus>) -> (r: Result<
    FocusedMonitor,
    CaptureError,
>)
    ensures
        spec_has_focused_monitor(monitors@) <==> r is Ok,
        r matches Ok(f) ==> spec_focused_monitor_from(
            f,
            monitors@[spec_first_focused(monitors@, 0)->0],
        ),
        r matches Err(e) ==> e == CaptureError::NoFocusedMonitor,
{
    let mut i: usize = 0;
    while i < monitors.len()
        invariant
            0 <= i <= monitors.len(),
            spec_first_focused(monitors@, 0) == spec_first_focused(monitors@, i as int),
        decreases monitors.len() - i,
    {
        if monitors[i].focused {
            let m = &monitors[i];
            let name = match &m.name {
                Some(n) => {
                    if n.as_str().is_empty() {
                        return Err(CaptureError::NoFocusedMonitor);
                    }
                    string_from_chars(&chars_of(n.as_str()))
                },
                None => {
                    return Err(CaptureError::NoFocusedMonitor);
                },
            };
            let active_workspace_id = match m.active_workspace {
                Some(w) => match w.id {
                    Some(id) => if id != 0 {
                        Some(id)
                    } else {
                        None
                    },
                    None => None,
                },
                None => None,
            };
            return Ok(
                FocusedMonitor {
                    name,
                    x: match m.x {
                        Some(v) => v,
                        None => 0,
                    },
                    y: match m.y {
                        Some(v) => v,
                        None => 0,
                    },
                    width: normalize_monitor_dimension(m.width),
                    height: normalize_monitor_dimension(m.height),
                    active_workspace_id,
                },
            );
        }
        i = i + 1;
    }
    Err(CaptureError::NoFocusedMonitor)
}

/// The geometry of a client that can be selected on workspace `ws`: shown (not hidden, not
/// unmapped), on that workspace, with a position and a positive size.
pub open spec fn spec_window_geometry(c: WindowClientStatus, ws: i32) -> Option<
    (i32, i32, u32, u32),
> {
    if c.hidden == Some(true) || c.mapped == Some(false) {
        None
    } else if !(c.workspace matches Some(w) && w.id == Some(ws)) {
        None
    } else {
        match (c.at, c.size) {
            (Some(at), Some(size)) => if size.0 > 0 && size.1 > 0 {
                Some((at.0, at.1, size.0 as u32, size.1 as u32))
            } else {
                None
            },
            _ => None,
        }
    }
}

/// A title or class, trimmed, where it is not empty.
pub open spec fn spec_label_part(o: Option<String>) -> Option<Seq<char>> {
    match o {
        Some(s) => if spec_trim(s@).len() > 0 {
            Some(spec_trim(s@))
        } else {
            None
        },
        None => None,
    }
}

/// `title [class]`, or whichever of the two is present, or `window`.
pub open spec fn spec_label_body(c: WindowClientStatus) -> Seq<char> {
    match (spec_label_part(c.title), spec_label_part(c.class)) {
        (Some(t), Some(k)) => t + " ["@ + k + "]"@,
        (Some(t), None) => t,
        (None, Some(k)) => k,
        (None, None) => "window"@,
    }
}

/// `s` with line breaks and carriage returns turned into spaces.
pub open spec fn spec_single_line(s: Seq<char>) -> Seq<char> {
    Seq::new(s.len(), |i: int| if s[i] == '\n' || s[i] == '\r' { ' ' } else { s[i] })
}

/// The label of the `index`-th selectable window: its number in two digits, then its body.
pub open spec fn spec_window_label(index: nat, c: WindowClientStatus) -> Seq<char> {
    spec_decimal_2(index) + ". "@ + spec_single_line(spec_label_body(c))
}

/// The candidates of `clients` on workspace `ws`, in order, numbered from one.
pub open spec fn spec_candidates(clients: Seq<WindowClientStatus>, ws: i32) -> Seq<
    (i32, i32, u32, u32, Seq<char>),
>
    decreases clients.len(),
{
    if clients.len() == 0 {
        Seq::empty()
    } else {
        let prev = spec_candidates(clients.drop_last(), ws);
        match spec_window_geometry(clients.last(), ws) {
            Some(g) => prev.push(
                (g.0, g.1, g.2, g.3, spec_window_label((prev.len() + 1) as nat, clients.last())),
            ),
            None => prev,
        }
    }
}

pub open spec fn spec_candidate_view(c: WindowSelectionCandidate) -> (i32, i32, u32, u32, Seq<
    char,
>) {
    (c.x, c.y, c.width, c.height, c.label@)
}

pub open spec fn spec_candidates_view(cs: Seq<WindowSelectionCandidate>) -> Seq<
    (i32, i32, u32, u32, Seq<char>),
> {
    cs.map_values(|c: WindowSelectionCandidate| spec_candidate_view(c))
}

proof fn lemma_candidates_len(clients: Seq<WindowClientStatus>, ws: i32)
    ensures
        spec_candidates(clients, ws).len() <= clients.len(),
    decreases clients.len(),
{
    if clients.len() > 0 {
        lemma_candidates_len(clients.drop_last(), ws);
    }
}

fn label_part(o: &Option<String>) -> (r: Option<Vec<char>>)
    ensures
        match spec_label_part(*o) {
            Some(t) => r matches Some(v) && v@ == t,
            None => r is None,
        },
{
    match o {
        Some(s) => {
            let t = trimmed_chars(s.as_str());
            if t.len() > 0 {
                Some(t)
            } else {
                None
            }
        },
        None => None,
    }
}

/// The label shown for the `index`-th selectable window.
pub fn format_window_label(index: usize, client: &WindowClientStatus) -> (s: String)
    ensures
        s@ == spec_window_label(index as nat, *client),
{
    let body: Vec<char> = match (label_part(&client.title), label_part(&client.class)) {
        (Some(t), Some(k)) => {
            let mut b = t;
            append_chars(&mut b, &chars_of(" ["));
            append_chars(&mut b, &k);
            append_chars(&mut b, &chars_of("]"));
            b
        },
        (Some(t), None) => t,
        (None, Some(k)) => k,
        (None, None) => chars_of("window"),
    };
    assert(body@ =~= spec_label_body(*client));
    let mut out = decimal_2_chars(index as u128);
    append_chars(&mut out, &chars_of(". "));
    let ghost prefix = out@;
    let mut i: usize = 0;
    while i < body.len()
        invariant
            0 <= i <= body.len(),
            out@ == prefix + spec_single_line(body@).take(i as int),
        decreases body.len() - i,
    {
        let c = body[i];
        if c == '\n' || c == '\r' {
            out.push(' ');
        } else {
            out.push(c);
        }
        i = i + 1;
        assert(out@ =~= prefix + spec_single_line(body@).take(i as int));
    }
    assert(spec_single_line(body@).take(i as int) =~= spec_single_line(body@));
    string_from_chars(&out)
}

/// The windows of a client report that can be selected on workspace `focused_workspace_id`,
/// in report order, each labelled with its position among them.
pub fn selectable_windows(clients: &Vec<WindowClientStatus>, focused_workspace_id: i32) -> (r: Vec<
    WindowSelectionCandidate,
>)
    ensures
        spec_candidates_view(r@) == spec_candidates(clients@, focused_workspace_id),
{
    let mut candidates: Vec<WindowSelectionCandidate> = Vec::new();
    let mut i: usize = 0;
    while i < clients.len()
        invariant
            0 <= i <= clients.len(),
            spec_candidates_view(candidates@) == spec_candidates(
                clients@.take(i as int),
                focused_workspace_id,
            ),
            candidates@.len() <= i,
        decreases clients.len() - i,
    {
        let client = &clients[i];
        proof {
            assert(clients@.take(i + 1).drop_last() =~= clients@.take(i as int));
            assert(clients@.take(i + 1).last() == clients@[i as int]);
        }
        let ghost prev = spec_candidates_view(candidates@);
        let shown = !(client.hidden == Some(true) || client.mapped == Some(false));
        let on_workspace = match client.workspace {
            Some(w) => w.id == Some(focused_workspace_id),
            None => false,
        };
        if shown && on_workspace {
            match (client.at, client.size) {
                (Some(at), Some(size)) => {
                    if size.0 > 0 && size.1 > 0 {
                        let label = format_window_label(candidates.len() + 1, client);
                        candidates.push(
                            WindowSelectionCandidate {
                                x: at.0,
                                y: at.1,
                                width: size.0 as u32,
                                height: size.1 as u32,
                                label,
                            },
                        );
                        assert(spec_candidates_view(candidates@) =~= prev.push(
                            spec_candidate_view(candidates@.last()),
                        ));
                    }
                },
                _ => {},
            }
        }
        i = i + 1;
    }
    assert(clients@.take(i as int) =~= clients@);
    candidates
}

/// The line that offers one candidate to the region picker: `x,y wxh label`.
pub open spec fn spec_region_line(c: (i32, i32, u32, u32, Seq<char>)) -> Seq<char> {
    spec_signed_decimal(c.0 as int) + ","@ + spec_signed_decimal(c.1 as int) + " "@
        + spec_decimal(c.2 as nat) + "x"@ + spec_decimal(c.3 as nat) + " "@ + c.4
}

/// One line per candidate, in order, for the region picker.
pub fn format_window_selection_regions(candidates: &Vec<WindowSelectionCandidate>) -> (s: String)
    ensures
        s@ == spec_join_lines(
            spec_candidates_view(candidates@).map_values(
                |c: (i32, i32, u32, u32, Seq<char>)| spec_region_line(c),
            ),
        ),
{
    let ghost lines = spec_candidates_view(candidates@).map_values(
        |c: (i32, i32, u32, u32, Seq<char>)| spec_region_line(c),
    );
    let mut parts: Vec<Vec<char>> = Vec::new();
    let mut i: usize = 0;
    while i < candidates.len()
        invariant
            0 <= i <= candidates.len(),
            lines == spec_candidates_view(candidates@).map_values(
                |c: (i32, i32, u32, u32, Seq<char>)| spec_region_line(c),
            ),
            spec_char_vecs(parts@) == lines.take(i as int),
        decreases candidates.len() - i,
    {
        let c = &candidates[i];
        let mut line = signed_decimal_chars(c.x as i64);
        append_chars(&mut line, &chars_of(","));
        append_chars(&mut line, &signed_decimal_chars(c.y as i64));
        append_chars(&mut line, &chars_of(" "));
        append_chars(&mut line, &decimal_chars(c.width as u128));
        append_chars(&mut line, &chars_of("x"));
        append_chars(&mut line, &decimal_chars(c.height as u128));
        append_chars(&mut line, &chars_of(" "));
        append_chars(&mut line, &chars_of(c.label.as_str()));
        let ghost prev = spec_char_vecs(parts@);
        proof {
            assert(line@ =~= spec_region_line(spec_candidate_view(*c)));
        }
        parts.push(line);
        proof {
            assert(spec_char_vecs(parts@) =~= prev.push(line@));
            assert(lines.take(i + 1) =~= lines.take(i as int).push(lines[i as int]));
        }
        i = i + 1;
    }
    assert(lines.take(i as int) =~= lines);
    string_from_chars(&join_lines(&parts))
}

/// Each line offered to the picker is the candidate's geometry as the picker prints it,
/// `x,y wxh`, then a space and its label; with `lemma_geometry_text_reads_back`, the geometry
/// of a picked candidate reads back as that candidate's region.
pub proof fn lemma_region_line_holds_geometry(c: (i32, i32, u32, u32, Seq<char>))
    ensures
        spec_region_line(c) == super::selection::spec_geometry_text(c.0, c.1, c.2, c.3) + " "@
            + c.4,
{
    assert(spec_signed_decimal(c.2 as int) == spec_decimal(c.2 as nat));
    assert(spec_signed_decimal(c.3 as int) == spec_decimal(c.3 as nat));
    reveal_strlit(",");
    reveal_strlit(" ");
    reveal_strlit("x");
    assert(spec_region_line(c) =~= super::selection::spec_geometry_text(c.0, c.1, c.2, c.3) + " "@
        + c.4);
}

} // verus!
