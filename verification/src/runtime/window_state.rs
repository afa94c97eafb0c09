//! Remembered window geometry: one per window kind, and one per capture's preview.

use vstd::prelude::*;

use crate::chars::{copy_text, same_text};

verus! {

/// The windows whose geometry is remembered.
#[derive(Debug, Clone, Copy, PartialEq, Eq, Structural)]
pub enum RuntimeWindowKind {
    Preview,
    Editor,
}

/// Position and size of a window.
#[derive(Debug, Clone, Copy, PartialEq, Eq, Structural)]
pub struct RuntimeWindowGeometry {
    pub x: i32,
    pub y: i32,
    pub width: i32,
    pub height: i32,
}

impl RuntimeWindowGeometry {
    /// A size at the origin.
    pub fn new(width: i32, height: i32) -> (g: Self)
        ensures
            g == (RuntimeWindowGeometry { x: 0, y: 0, width, height }),
    {
        RuntimeWindowGeometry { x: 0, y: 0, width, height }
    }

    pub fn with_position(x: i32, y: i32, width: i32, height: i32) -> (g: Self)
        ensures
            g == (RuntimeWindowGeometry { x, y, width, height }),
    {
        RuntimeWindowGeometry { x, y, width, height }
    }
}

/// The geometry stored for `key` in `entries`: the first entry with that key.
pub open spec fn spec_lookup(entries: Seq<(Seq<char>, RuntimeWindowGeometry)>, key: Seq<char>) -> Option<
    RuntimeWindowGeometry,
>
    decreases entries.len(),
{
    if entries.len() == 0 {
        None
    } else if entries[0].0 == key {
        Some(entries[0].1)
    } else {
        spec_lookup(entries.drop_first(), key)
    }
}

/// Remembered window geometry.
#[derive(Debug)]
pub struct RuntimeWindowState {
    preview_geometry: Option<RuntimeWindowGeometry>,
    editor_geometry: Option<RuntimeWindowGeometry>,
    preview_geometry_by_capture: Vec<(String, RuntimeWindowGeometry)>,
}

proof fn lemma_lookup_index(entries: Seq<(Seq<char>, RuntimeWindowGeometry)>, key: Seq<char>)
    ensures
        spec_lookup(entries, key) is None <==> forall|i: int| 0 <= i < entries.len() ==> #[trigger] entries[i].0 != key,
        spec_lookup(entries, key) is Some ==> exists|i: int|
            0 <= i < entries.len() && #[trigger] entries[i].0 == key && entries[i].1 == spec_lookup(entries, key)->0,
    decreases entries.len(),
{
    if entries.len() > 0 {
        lemma_lookup_index(entries.drop_first(), key);
        if entries[0].0 != key {
            assert forall|i: int| 1 <= i < entries.len() implies entries[i] == entries.drop_first()[i - 1] by {}
            if spec_lookup(entries, key) is Some {
                let j = choose|j: int| 0 <= j < entries.drop_first().len() && #[trigger] entries.drop_first()[j].0 == key && entries.drop_first()[j].1 == spec_lookup(entries, key)->0;
                assert(entries[j + 1] == entries.drop_first()[j]);
            }
        }
    }
}

proof fn lemma_lookup_unique(entries: Seq<(Seq<char>, RuntimeWindowGeometry)>, i: int)
    requires
        0 <= i < entries.len(),
        forall|a: int, b: int| 0 <= a < b < entries.len() ==> entries[a].0 != entries[b].0,
    ensures
        spec_lookup(entries, entries[i].0) == Some(entries[i].1),
    decreases entries.len(),
{
    if i > 0 {
        assert(entries[0].0 != entries[i].0);
        assert(entries.drop_first()[i - 1] == entries[i]);
        lemma_lookup_unique(entries.drop_first(), i - 1);
    }
}

proof fn lemma_lookup_update(
    entries: Seq<(Seq<char>, RuntimeWindowGeometry)>,
    i: int,
    value: RuntimeWindowGeometry,
    key: Seq<char>,
)
    requires
        0 <= i < entries.len(),
        key != entries[i].0,
    ensures
        spec_lookup(entries.update(i, (entries[i].0, value)), key) == spec_lookup(entries, key),
    decreases entries.len(),
{
    let updated = entries.update(i, (entries[i].0, value));
    if i == 0 {
        assert(updated.drop_first() =~= entries.drop_first());
    } else {
        assert(updated.drop_first() =~= entries.drop_first().update(i - 1, (entries[i].0, value)));
        assert(entries.drop_first()[i - 1] == entries[i]);
        lemma_lookup_update(entries.drop_first(), i - 1, value, key);
    }
}

proof fn lemma_lookup_push(
    entries: Seq<(Seq<char>, RuntimeWindowGeometry)>,
    entry: (Seq<char>, RuntimeWindowGeometry),
    key: Seq<char>,
)
    requires
        key != entry.0,
    ensures
        spec_lookup(entries.push(entry), key) == spec_lookup(entries, key),
    decreases entries.len(),
{
    if entries.len() == 0 {
        assert(entries.push(entry).drop_first() =~= entries);
    } else {
        assert(entries.push(entry).drop_first() =~= entries.drop_first().push(entry));
        lemma_lookup_push(entries.drop_first(), entry, key);
    }
}

proof fn lemma_lookup_remove(entries: Seq<(Seq<char>, RuntimeWindowGeometry)>, i: int, key: Seq<char>)
    requires
        0 <= i < entries.len(),
        key != entries[i].0,
    ensures
        spec_lookup(entries.remove(i), key) == spec_lookup(entries, key),
    decreases entries.len(),
{
    if i == 0 {
        assert(entries.remove(0) =~= entries.drop_first());
    } else {
        assert(entries.remove(i).drop_first() =~= entries.drop_first().remove(i - 1));
        assert(entries.drop_first()[i - 1] == entries[i]);
        assert(entries.remove(i)[0] == entries[0]);
        lemma_lookup_remove(entries.drop_first(), i - 1, key);
    }
}

impl RuntimeWindowState {
    /// The per-capture entries: keys and geometry, in insertion order.
    pub closed spec fn spec_entries(&self) -> Seq<(Seq<char>, RuntimeWindowGeometry)> {
        self.preview_geometry_by_capture@.map_values(|e: (String, RuntimeWindowGeometry)| (e.0@, e.1))
    }

    /// No capture id has two entries.
    #[verifier::type_invariant]
    closed spec fn keys_distinct(self) -> bool {
        forall|a: int, b: int|
            0 <= a < b < self.preview_geometry_by_capture@.len() ==> self.preview_geometry_by_capture@[a].0@
                != self.preview_geometry_by_capture@[b].0@
    }

    /// The geometry remembered for a window kind.
    pub closed spec fn spec_geometry(&self, kind: RuntimeWindowKind) -> Option<RuntimeWindowGeometry> {
        match kind {
            RuntimeWindowKind::Preview => self.preview_geometry,
            RuntimeWindowKind::Editor => self.editor_geometry,
        }
    }

    /// The preview geometry remembered for a capture.
    pub open spec fn spec_preview_for(&self, capture_id: Seq<char>) -> Option<RuntimeWindowGeometry> {
        spec_lookup(self.spec_entries(), capture_id)
    }

    /// Nothing remembered.
    pub fn new() -> (s: Self)
        ensures
            s.spec_geometry(RuntimeWindowKind::Preview) is None,
            s.spec_geometry(RuntimeWindowKind::Editor) is None,
            forall|k: Seq<char>| #[trigger] s.spec_preview_for(k) is None,
    {
        let s = RuntimeWindowState {
            preview_geometry: None,
            editor_geometry: None,
            preview_geometry_by_capture: Vec::new(),
        };
        assert(s.spec_entries() =~= Seq::empty());
        s
    }

    pub fn geometry_for(&self, kind: RuntimeWindowKind) -> (g: Option<RuntimeWindowGeometry>)
        ensures
            g == self.spec_geometry(kind),
    {
        match kind {
            RuntimeWindowKind::Preview => self.preview_geometry,
            RuntimeWindowKind::Editor => self.editor_geometry,
        }
    }

    /// Remembers the geometry of one window kind; the other kind and the captures keep theirs.
    pub fn set_geometry(&mut self, kind: RuntimeWindowKind, geometry: RuntimeWindowGeometry)
        ensures
            final(self).spec_geometry(kind) == Some(geometry),
            forall|k: RuntimeWindowKind| k != kind ==> final(self).spec_geometry(k) == old(self).spec_geometry(k),
            final(self).spec_entries() == old(self).spec_entries(),
    {
        proof {
            use_type_invariant(&*self);
        }
        match kind {
            RuntimeWindowKind::Preview => self.preview_geometry = Some(geometry),
            RuntimeWindowKind::Editor => self.editor_geometry = Some(geometry),
        }
    }

    fn position_of(&self, capture_id: &str) -> (index: Option<usize>)
        ensures
            match index {
                Some(i) => i < self.spec_entries().len() && self.spec_entries()[i as int].0 == capture_id@,
                None => forall|i: int| 0 <= i < self.spec_entries().len() ==> #[trigger] self.spec_entries()[i].0 != capture_id@,
            },
    {
        self.position_of_in(&self.preview_geometry_by_capture, capture_id)
    }

    fn position_of_in(&self, entries: &Vec<(String, RuntimeWindowGeometry)>, capture_id: &str) -> (index: Option<usize>)
        ensures
            match index {
                Some(i) => i < entries@.len() && entries@[i as int].0@ == capture_id@,
                None => forall|i: int| 0 <= i < entries@.len() ==> #[trigger] entries@[i].0@ != capture_id@,
            },
    {
        let mut i: usize = 0;
        while i < entries.len()
            invariant
                0 <= i <= entries.len(),
                forall|j: int| 0 <= j < i ==> #[trigger] entries@[j].0@ != capture_id@,
            decreases entries.len() - i,
        {
            if same_text(entries[i].0.as_str(), capture_id) {
                return Some(i);
            }
            i = i + 1;
        }
        None
    }

    /// The preview geometry remembered for a capture.
    pub fn preview_geometry_for_capture(&self, capture_id: &str) -> (g: Option<RuntimeWindowGeometry>)
        ensures
            g == self.spec_preview_for(capture_id@),
    {
        proof {
            use_type_invariant(self);
            lemma_lookup_index(self.spec_entries(), capture_id@);
        }
        match self.position_of(capture_id) {
            Some(i) => {
                proof {
                    lemma_lookup_unique(self.spec_entries(), i as int);
                }
                Some(self.preview_geometry_by_capture[i].1)
            },
            None => None,
        }
    }

    /// Remembers a capture's preview geometry; reading it back gives this geometry, and every
    /// other capture keeps what it had.
    pub fn set_preview_geometry_for_capture(&mut self, capture_id: &str, geometry: RuntimeWindowGeometry)
        ensures
            final(self).spec_preview_for(capture_id@) == Some(geometry),
            forall|k: Seq<char>| k != capture_id@ ==> #[trigger] final(self).spec_preview_for(k) == old(self).spec_preview_for(k),
            forall|kind: RuntimeWindowKind| #[trigger] final(self).spec_geometry(kind) == old(self).spec_geometry(kind),
    {
        proof {
            use_type_invariant(&*self);
        }
        let ghost before = self.spec_entries();
        let key = copy_text(capture_id);
        let mut entries: Vec<(String, RuntimeWindowGeometry)> = Vec::new();
        std::mem::swap(&mut entries, &mut self.preview_geometry_by_capture);
        let ghost mut slot: int = 0;
        match self.position_of_in(&entries, capture_id) {
            Some(i) => {
                entries.set(i, (key, geometry));
                proof {
                    slot = i as int;
                    assert(entries@.map_values(|e: (String, RuntimeWindowGeometry)| (e.0@, e.1))
                        =~= before.update(i as int, (capture_id@, geometry)));
                    assert forall|k: Seq<char>| k != capture_id@ implies #[trigger] spec_lookup(before.update(i as int, (capture_id@, geometry)), k) == spec_lookup(before, k) by {
                        lemma_lookup_update(before, i as int, geometry, k);
                    }
                }
            },
            None => {
                proof {
                    slot = entries@.len() as int;
                }
                entries.push((key, geometry));
                proof {
                    assert(entries@.map_values(|e: (String, RuntimeWindowGeometry)| (e.0@, e.1))
                        =~= before.push((capture_id@, geometry)));
                    assert forall|k: Seq<char>| k != capture_id@ implies #[trigger] spec_lookup(before.push((capture_id@, geometry)), k) == spec_lookup(before, k) by {
                        lemma_lookup_push(before, (capture_id@, geometry), k);
                    }
                }
            },
        }
        proof {
            let e = entries@.map_values(|e: (String, RuntimeWindowGeometry)| (e.0@, e.1));
            assert forall|a: int, b: int| 0 <= a < b < entries@.len() implies entries@[a].0@ != entries@[b].0@ by {
                assert(e[a].0 == entries@[a].0@);
                assert(e[b].0 == entries@[b].0@);
            }
            assert(e[slot] == (capture_id@, geometry));
            assert forall|a: int, b: int| 0 <= a < b < e.len() implies e[a].0 != e[b].0 by {
                assert(e[a].0 == entries@[a].0@);
                assert(e[b].0 == entries@[b].0@);
            }
        }
        self.preview_geometry_by_capture = entries;
        proof {
            let e = self.spec_entries();
            lemma_lookup_unique(e, slot);
        }
    }
}

impl RuntimeWindowState {
    /// Forgets a capture's preview geometry; every other capture keeps what it had.
    pub fn remove_preview_geometry_for_capture(&mut self, capture_id: &str)
        ensures
            final(self).spec_preview_for(capture_id@) is None,
            forall|k: Seq<char>| k != capture_id@ ==> #[trigger] final(self).spec_preview_for(k) == old(self).spec_preview_for(k),
            forall|kind: RuntimeWindowKind| #[trigger] final(self).spec_geometry(kind) == old(self).spec_geometry(kind),
    {
        proof {
            use_type_invariant(&*self);
        }
        let ghost before = self.spec_entries();
        let mut entries: Vec<(String, RuntimeWindowGeometry)> = Vec::new();
        std::mem::swap(&mut entries, &mut self.preview_geometry_by_capture);
        match self.position_of_in(&entries, capture_id) {
            Some(i) => {
                let _ = entries.remove(i);
                proof {
                    let e = entries@.map_values(|e: (String, RuntimeWindowGeometry)| (e.0@, e.1));
                    assert(e =~= before.remove(i as int));
                    assert forall|k: Seq<char>| k != capture_id@ implies #[trigger] spec_lookup(before.remove(i as int), k) == spec_lookup(before, k) by {
                        lemma_lookup_remove(before, i as int, k);
                    }
                    assert forall|a: int, b: int| 0 <= a < b < entries@.len() implies entries@[a].0@ != entries@[b].0@ by {
                        assert(e[a].0 == entries@[a].0@);
                        assert(e[b].0 == entries@[b].0@);
                        if a < i {
                            assert(before[a].0 == e[a].0);
                        } else {
                            assert(before[a + 1].0 == e[a].0);
                        }
                        if b < i {
                            assert(before[b].0 == e[b].0);
                        } else {
                            assert(before[b + 1].0 == e[b].0);
                        }
                    }
                    assert forall|j: int| 0 <= j < e.len() implies #[trigger] e[j].0 != capture_id@ by {
                        if j < i {
                            assert(before[j] == e[j]);
                            assert(before[i as int].0 == capture_id@);
                        } else {
                            assert(before[j + 1] == e[j]);
                            assert(before[i as int].0 == capture_id@);
                        }
                    }
                    lemma_lookup_index(e, capture_id@);
                }
            },
            None => {
                proof {
                    lemma_lookup_index(before, capture_id@);
                }
            },
        }
        self.preview_geometry_by_capture = entries;
    }

    /// The captures that have a remembered preview geometry, each once.
    pub fn preview_geometry_capture_ids(&self) -> (ids: Vec<String>)
        ensures
            forall|k: Seq<char>| (exists|i: int| 0 <= i < ids@.len() && #[trigger] ids@[i]@ == k) <==> self.spec_preview_for(k) is Some,
            forall|a: int, b: int| 0 <= a < b < ids@.len() ==> ids@[a]@ != ids@[b]@,
    {
        proof {
            use_type_invariant(self);
        }
        let mut ids: Vec<String> = Vec::new();
        let mut i: usize = 0;
        while i < self.preview_geometry_by_capture.len()
            invariant
                0 <= i <= self.preview_geometry_by_capture.len(),
                ids@.len() == i,
                forall|j: int| 0 <= j < i ==> #[trigger] ids@[j]@ == self.preview_geometry_by_capture@[j].0@,
            decreases self.preview_geometry_by_capture.len() - i,
        {
            ids.push(copy_text(self.preview_geometry_by_capture[i].0.as_str()));
            i = i + 1;
        }
        proof {
            let e = self.spec_entries();
            assert forall|k: Seq<char>| (exists|i: int| 0 <= i < ids@.len() && #[trigger] ids@[i]@ == k) <==> self.spec_preview_for(k) is Some by {
                lemma_lookup_index(e, k);
                if exists|i: int| 0 <= i < ids@.len() && #[trigger] ids@[i]@ == k {
                    let i = choose|i: int| 0 <= i < ids@.len() && #[trigger] ids@[i]@ == k;
                    assert(e[i].0 == k);
                }
                if self.spec_preview_for(k) is Some {
                    let i = choose|i: int| 0 <= i < e.len() && #[trigger] e[i].0 == k && e[i].1 == spec_lookup(e, k)->0;
                    assert(ids@[i]@ == k);
                }
            }
        }
        ids
    }
}

impl Default for RuntimeWindowState {
    fn default() -> (s: Self)
        ensures
            s.spec_geometry(RuntimeWindowKind::Preview) is None,
            s.spec_geometry(RuntimeWindowKind::Editor) is None,
            forall|k: Seq<char>| #[trigger] s.spec_preview_for(k) is None,
    {
        Self::new()
    }
}

impl Clone for RuntimeWindowState {
    fn clone(&self) -> (c: Self)
        ensures
            forall|kind: RuntimeWindowKind| #[trigger] c.spec_geometry(kind) == self.spec_geometry(kind),
            c.spec_entries() == self.spec_entries(),
    {
        proof {
            use_type_invariant(self);
        }
        let mut entries: Vec<(String, RuntimeWindowGeometry)> = Vec::new();
        let mut i: usize = 0;
        while i < self.preview_geometry_by_capture.len()
            invariant
                0 <= i <= self.preview_geometry_by_capture.len(),
                entries@.len() == i,
                forall|j: int| 0 <= j < i ==> #[trigger] entries@[j].0@ == self.preview_geometry_by_capture@[j].0@
                    && entries@[j].1 == self.preview_geometry_by_capture@[j].1,
            decreases self.preview_geometry_by_capture.len() - i,
        {
            let key = copy_text(self.preview_geometry_by_capture[i].0.as_str());
            entries.push((key, self.preview_geometry_by_capture[i].1));
            i = i + 1;
        }
        let c = RuntimeWindowState {
            preview_geometry: self.preview_geometry,
            editor_geometry: self.editor_geometry,
            preview_geometry_by_capture: entries,
        };
        assert(c.spec_entries() =~= self.spec_entries());
        c
    }
}

} // verus!
