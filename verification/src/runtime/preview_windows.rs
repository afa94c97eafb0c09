//! Keeping the remembered preview window geometry in step with the open captures.

use vstd::prelude::*;

use crate::capture::flow::CaptureArtifact;
use crate::chars::{copy_text, same_text};
use super::window_state::{RuntimeWindowKind, RuntimeWindowState};

verus! {

/// Whether a capture with the id `capture_id` is among `captures`.
pub open spec fn spec_capture_listed(captures: Seq<CaptureArtifact>, capture_id: Seq<char>) -> bool {
    exists|j: int| 0 <= j < captures.len() && #[trigger] captures[j].capture_id@ == capture_id
}

/// Whether `capture_id` names one of `captures`.
pub fn capture_listed(captures: &Vec<CaptureArtifact>, capture_id: &str) -> (b: bool)
    ensures
        b == spec_capture_listed(captures@, capture_id@),
{
    let mut j: usize = 0;
    while j < captures.len()
        invariant
            0 <= j <= captures@.len(),
            forall|k: int| 0 <= k < j ==> #[trigger] captures@[k].capture_id@ != capture_id@,
        decreases captures.len() - j,
    {
        if same_text(captures[j].capture_id.as_str(), capture_id) {
            return true;
        }
        j = j + 1;
    }
    false
}

/// Forgets the preview geometry of every capture that is no longer open; the geometry of
/// open captures and of the window kinds stays.
pub fn prune_stale_preview_window_geometries(captures: &Vec<CaptureArtifact>, state: &mut RuntimeWindowState)
    ensures
        forall|k: Seq<char>|
            #[trigger] final(state).spec_preview_for(k) == (if spec_capture_listed(captures@, k) {
                old(state).spec_preview_for(k)
            } else {
                None
            }),
        forall|kind: RuntimeWindowKind| #[trigger] final(state).spec_geometry(kind) == old(state).spec_geometry(kind),
{
    let ids = state.preview_geometry_capture_ids();
    let ghost start = *state;
    let mut i: usize = 0;
    while i < ids.len()
        invariant
            0 <= i <= ids@.len(),
            forall|k: Seq<char>| (exists|m: int| 0 <= m < ids@.len() && #[trigger] ids@[m]@ == k) <==> start.spec_preview_for(k) is Some,
            forall|k: Seq<char>|
                #[trigger] state.spec_preview_for(k) == (if (exists|m: int| 0 <= m < i && #[trigger] ids@[m]@ == k)
                    && !spec_capture_listed(captures@, k) {
                    None
                } else {
                    start.spec_preview_for(k)
                }),
            forall|kind: RuntimeWindowKind| #[trigger] state.spec_geometry(kind) == start.spec_geometry(kind),
        decreases ids.len() - i,
    {
        let id = ids[i].as_str();
        if !capture_listed(captures, id) {
            state.remove_preview_geometry_for_capture(id);
        }
        proof {
            assert forall|k: Seq<char>|
                #[trigger] state.spec_preview_for(k) == (if (exists|m: int| 0 <= m < i + 1 && #[trigger] ids@[m]@ == k)
                    && !spec_capture_listed(captures@, k) {
                    None
                } else {
                    start.spec_preview_for(k)
                }) by {
                if k == ids@[i as int]@ {
                    assert(exists|m: int| 0 <= m < i + 1 && #[trigger] ids@[m]@ == k);
                } else {
                    if exists|m: int| 0 <= m < i + 1 && #[trigger] ids@[m]@ == k {
                        let m = choose|m: int| 0 <= m < i + 1 && #[trigger] ids@[m]@ == k;
                        assert(m < i);
                    }
                }
            }
        }
        i = i + 1;
    }
    proof {
        assert forall|k: Seq<char>|
            #[trigger] state.spec_preview_for(k) == (if spec_capture_listed(captures@, k) {
                start.spec_preview_for(k)
            } else {
                None
            }) by {
            if !spec_capture_listed(captures@, k) && start.spec_preview_for(k) is Some {
                let m = choose|m: int| 0 <= m < ids@.len() && #[trigger] ids@[m]@ == k;
                assert(exists|m: int| 0 <= m < i && #[trigger] ids@[m]@ == k);
            }
        }
    }
}

/// The ids of `open_ids`, open preview windows, whose capture is no longer among `captures`,
/// in the order given.
pub open spec fn spec_stale_ids(open_ids: Seq<Seq<char>>, captures: Seq<CaptureArtifact>) -> Seq<Seq<char>> {
    open_ids.filter(|id: Seq<char>| !spec_capture_listed(captures, id))
}

/// The text of each string.
pub open spec fn spec_texts(v: Seq<String>) -> Seq<Seq<char>> {
    v.map_values(|s: String| s@)
}

/// Whether the window for `captures[i]` has to be made: no window is open for its id and
/// no earlier capture with the same id made one.
pub open spec fn spec_needs_window(open_ids: Seq<Seq<char>>, captures: Seq<CaptureArtifact>, i: int) -> bool {
    &&& !open_ids.contains(captures[i].capture_id@)
    &&& forall|j: int| 0 <= j < i ==> #[trigger] captures[j].capture_id@ != captures[i].capture_id@
}

/// What showing the previews of `captures` does to the open windows: the stale windows it
/// closes, and for each capture whether its window is made (`true`) or the open one is
/// brought up to date (`false`).
#[derive(Debug, Clone)]
pub struct PreviewWindowPlan {
    pub stale_ids: Vec<String>,
    pub create: Vec<bool>,
}

fn text_listed(ids: &Vec<String>, id: &str) -> (b: bool)
    ensures
        b == spec_texts(ids@).contains(id@),
{
    let mut j: usize = 0;
    while j < ids.len()
        invariant
            0 <= j <= ids@.len(),
            forall|k: int| 0 <= k < j ==> #[trigger] ids@[k]@ != id@,
        decreases ids.len() - j,
    {
        if same_text(ids[j].as_str(), id) {
            assert(spec_texts(ids@)[j as int] == id@);
            return true;
        }
        j = j + 1;
    }
    proof {
        if spec_texts(ids@).contains(id@) {
            let k = choose|k: int| 0 <= k < spec_texts(ids@).len() && spec_texts(ids@)[k] == id@;
            assert(ids@[k]@ == id@);
        }
    }
    false
}

fn listed_before(captures: &Vec<CaptureArtifact>, i: usize) -> (b: bool)
    requires
        i < captures@.len(),
    ensures
        b == exists|j: int| 0 <= j < i && #[trigger] captures@[j].capture_id@ == captures@[i as int].capture_id@,
{
    let mut j: usize = 0;
    while j < i
        invariant
            0 <= j <= i < captures@.len(),
            forall|k: int| 0 <= k < j ==> #[trigger] captures@[k].capture_id@ != captures@[i as int].capture_id@,
        decreases i - j,
    {
        if same_text(captures[j].capture_id.as_str(), captures[i].capture_id.as_str()) {
            return true;
        }
        j = j + 1;
    }
    false
}

/// Plans the preview windows for `captures` given the ids of the open windows.
pub fn plan_preview_windows(open_ids: &Vec<String>, captures: &Vec<CaptureArtifact>) -> (plan: PreviewWindowPlan)
    ensures
        spec_texts(plan.stale_ids@) == spec_stale_ids(spec_texts(open_ids@), captures@),
        plan.create@.len() == captures@.len(),
        forall|i: int| 0 <= i < captures@.len() ==> #[trigger] plan.create@[i] == spec_needs_window(
            spec_texts(open_ids@),
            captures@,
            i,
        ),
{
    let ghost pred = |id: Seq<char>| !spec_capture_listed(captures@, id);
    let mut stale_ids: Vec<String> = Vec::new();
    let mut i: usize = 0;
    while i < open_ids.len()
        invariant
            0 <= i <= open_ids@.len(),
            pred == (|id: Seq<char>| !spec_capture_listed(captures@, id)),
            spec_texts(stale_ids@) == spec_texts(open_ids@).take(i as int).filter(pred),
        decreases open_ids.len() - i,
    {
        proof {
            reveal(Seq::filter);
            assert(spec_texts(open_ids@).take(i as int + 1).drop_last() =~= spec_texts(open_ids@).take(i as int));
        }
        if !capture_listed(captures, open_ids[i].as_str()) {
            stale_ids.push(copy_text(open_ids[i].as_str()));
            assert(spec_texts(stale_ids@) =~= spec_texts(open_ids@).take(i as int).filter(pred).push(open_ids@[i as int]@));
        }
        i = i + 1;
    }
    assert(spec_texts(open_ids@).take(i as int) =~= spec_texts(open_ids@));
    let mut create: Vec<bool> = Vec::new();
    let mut c: usize = 0;
    while c < captures.len()
        invariant
            0 <= c <= captures@.len(),
            create@.len() == c,
            forall|k: int| 0 <= k < c ==> #[trigger] create@[k] == spec_needs_window(spec_texts(open_ids@), captures@, k),
        decreases captures.len() - c,
    {
        let open = text_listed(open_ids, captures[c].capture_id.as_str());
        let earlier = listed_before(captures, c);
        create.push(!open && !earlier);
        c = c + 1;
    }
    PreviewWindowPlan { stale_ids, create }
}

} // verus!
