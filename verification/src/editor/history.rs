//! Undo and redo of the editor's objects: snapshots of the placed objects on two stacks.

use vstd::prelude::*;

use super::tools::selection::spec_replaced;
use super::tools::{EditorTools, ToolObject};

verus! {

/// A step through the edit history.
#[derive(Debug, Clone, Copy, PartialEq, Eq, Structural)]
pub enum EditorHistoryAction {
    Undo,
    Redo,
}

pub open spec fn spec_applied_message(action: EditorHistoryAction) -> &'static str {
    match action {
        EditorHistoryAction::Undo => "undo applied",
        EditorHistoryAction::Redo => "redo applied",
    }
}

pub open spec fn spec_empty_message(action: EditorHistoryAction) -> &'static str {
    match action {
        EditorHistoryAction::Undo => "undo stack empty",
        EditorHistoryAction::Redo => "redo stack empty",
    }
}

impl EditorHistoryAction {
    /// The status shown once the step was taken.
    pub fn applied_message(self) -> (s: &'static str)
        ensures
            s == spec_applied_message(self),
    {
        match self {
            EditorHistoryAction::Undo => "undo applied",
            EditorHistoryAction::Redo => "redo applied",
        }
    }

    /// The status shown when there is nothing to step to.
    pub fn empty_message(self) -> (s: &'static str)
        ensures
            s == spec_empty_message(self),
    {
        match self {
            EditorHistoryAction::Undo => "undo stack empty",
            EditorHistoryAction::Redo => "redo stack empty",
        }
    }
}

pub open spec fn spec_snapshots(stack: Seq<Vec<ToolObject>>) -> Seq<Seq<ToolObject>> {
    stack.map_values(|v: Vec<ToolObject>| v@)
}

/// One step of the history: with `undo` and `redo` the two stacks and `current` the placed
/// objects, the step takes the newest snapshot of its source stack (undo for `Undo`, redo
/// for `Redo`) as the new objects and saves the current ones on the other stack. With an
/// empty source nothing changes. The result is the new undo stack, redo stack, objects, and
/// whether the step was taken.
pub open spec fn spec_history_step(
    undo: Seq<Seq<ToolObject>>,
    redo: Seq<Seq<ToolObject>>,
    current: Seq<ToolObject>,
    action: EditorHistoryAction,
) -> (Seq<Seq<ToolObject>>, Seq<Seq<ToolObject>>, Seq<ToolObject>, bool) {
    match action {
        EditorHistoryAction::Undo => if undo.len() == 0 {
            (undo, redo, current, false)
        } else {
            (undo.drop_last(), redo.push(current), undo.last(), true)
        },
        EditorHistoryAction::Redo => if redo.len() == 0 {
            (undo, redo, current, false)
        } else {
            (undo.push(current), redo.drop_last(), redo.last(), true)
        },
    }
}

/// The undo and redo stacks of object snapshots, newest last.
#[derive(Debug)]
pub struct EditorHistory {
    undo_stack: Vec<Vec<ToolObject>>,
    redo_stack: Vec<Vec<ToolObject>>,
}

impl EditorHistory {
    pub closed spec fn spec_undo(&self) -> Seq<Seq<ToolObject>> {
        spec_snapshots(self.undo_stack@)
    }

    pub closed spec fn spec_redo(&self) -> Seq<Seq<ToolObject>> {
        spec_snapshots(self.redo_stack@)
    }

    /// A history with nothing to undo or redo.
    pub fn new() -> (h: Self)
        ensures
            h.spec_undo() == Seq::<Seq<ToolObject>>::empty(),
            h.spec_redo() == Seq::<Seq<ToolObject>>::empty(),
    {
        let h = EditorHistory { undo_stack: Vec::new(), redo_stack: Vec::new() };
        assert(h.spec_undo() =~= Seq::<Seq<ToolObject>>::empty());
        assert(h.spec_redo() =~= Seq::<Seq<ToolObject>>::empty());
        h
    }

    /// How many steps can be undone.
    pub fn undo_depth(&self) -> (n: usize)
        ensures
            n == self.spec_undo().len(),
    {
        self.undo_stack.len()
    }

    /// How many steps can be redone.
    pub fn redo_depth(&self) -> (n: usize)
        ensures
            n == self.spec_redo().len(),
    {
        self.redo_stack.len()
    }

    /// Saves the objects as they were before an edit; a new edit drops what could be redone.
    pub fn record_undo_snapshot(&mut self, snapshot: Vec<ToolObject>)
        ensures
            final(self).spec_undo() == old(self).spec_undo().push(snapshot@),
            final(self).spec_redo() == Seq::<Seq<ToolObject>>::empty(),
    {
        let ghost before = self.spec_undo();
        self.undo_stack.push(snapshot);
        self.redo_stack.clear();
        assert(self.spec_undo() =~= before.push(snapshot@));
        assert(self.spec_redo() =~= Seq::<Seq<ToolObject>>::empty());
    }

    /// Forgets what could be redone, as a new edit does.
    pub fn clear_redo(&mut self)
        ensures
            final(self).spec_undo() == old(self).spec_undo(),
            final(self).spec_redo() == Seq::<Seq<ToolObject>>::empty(),
    {
        self.redo_stack.clear();
        assert(self.spec_redo() =~= Seq::<Seq<ToolObject>>::empty());
    }

    /// Saves a snapshot where there is one; without one nothing changes.
    pub fn record_undo_snapshot_if_some(&mut self, snapshot: Option<Vec<ToolObject>>)
        ensures
            match snapshot {
                Some(s) => final(self).spec_undo() == old(self).spec_undo().push(s@)
                    && final(self).spec_redo() == Seq::<Seq<ToolObject>>::empty(),
                None => final(self).spec_undo() == old(self).spec_undo() && final(self).spec_redo()
                    == old(self).spec_redo(),
            },
    {
        match snapshot {
            Some(s) => self.record_undo_snapshot(s),
            None => {},
        }
    }

    /// Takes one undo or redo step on `tools` (see `spec_history_step`); `false` when there
    /// was nothing to step to. The objects are put back as `EditorTools::replace_objects` does.
    pub fn apply(&mut self, action: EditorHistoryAction, tools: &mut EditorTools) -> (applied: bool)
        ensures
            ({
                let step = spec_history_step(
                    old(self).spec_undo(),
                    old(self).spec_redo(),
                    old(tools).spec_objects(),
                    action,
                );
                &&& final(self).spec_undo() == step.0
                &&& final(self).spec_redo() == step.1
                &&& final(tools).spec_objects() == step.2
                &&& applied == step.3
                &&& applied ==> spec_replaced(*final(tools), *old(tools), step.2)
                &&& !applied ==> *final(tools) == *old(tools)
            }),
    {
        let ghost undo0 = self.spec_undo();
        let ghost redo0 = self.spec_redo();
        let snapshot = match action {
            EditorHistoryAction::Undo => self.undo_stack.pop(),
            EditorHistoryAction::Redo => self.redo_stack.pop(),
        };
        match snapshot {
            None => false,
            Some(snapshot) => {
                let previous = tools.swap_objects(snapshot);
                match action {
                    EditorHistoryAction::Undo => {
                        self.redo_stack.push(previous);
                        assert(self.spec_undo() =~= undo0.drop_last());
                        assert(self.spec_redo() =~= redo0.push(previous@));
                    },
                    EditorHistoryAction::Redo => {
                        self.undo_stack.push(previous);
                        assert(self.spec_redo() =~= redo0.drop_last());
                        assert(self.spec_undo() =~= undo0.push(previous@));
                    },
                }
                true
            },
        }
    }
}

/// Undoing and then redoing gives back the objects and both stacks, wherever there was
/// something to undo.
pub proof fn lemma_undo_then_redo_restores(
    undo: Seq<Seq<ToolObject>>,
    redo: Seq<Seq<ToolObject>>,
    current: Seq<ToolObject>,
)
    requires
        undo.len() > 0,
    ensures
        ({
            let s1 = spec_history_step(undo, redo, current, EditorHistoryAction::Undo);
            let s2 = spec_history_step(s1.0, s1.1, s1.2, EditorHistoryAction::Redo);
            s1.3 && s2.3 && s2.0 == undo && s2.1 == redo && s2.2 == current
        }),
{
    assert(undo.drop_last().push(undo.last()) =~= undo);
    assert(redo.push(current).drop_last() =~= redo);
}

/// Redoing and then undoing gives back the objects and both stacks, wherever there was
/// something to redo.
pub proof fn lemma_redo_then_undo_restores(
    undo: Seq<Seq<ToolObject>>,
    redo: Seq<Seq<ToolObject>>,
    current: Seq<ToolObject>,
)
    requires
        redo.len() > 0,
    ensures
        ({
            let s1 = spec_history_step(undo, redo, current, EditorHistoryAction::Redo);
            let s2 = spec_history_step(s1.0, s1.1, s1.2, EditorHistoryAction::Undo);
            s1.3 && s2.3 && s2.0 == undo && s2.1 == redo && s2.2 == current
        }),
{
    assert(redo.drop_last().push(redo.last()) =~= redo);
    assert(undo.push(current).drop_last() =~= undo);
}

/// A step moves one snapshot from one stack to the other: the number of snapshots on the
/// two stacks together does not change.
pub proof fn lemma_step_keeps_snapshot_count(
    undo: Seq<Seq<ToolObject>>,
    redo: Seq<Seq<ToolObject>>,
    current: Seq<ToolObject>,
    action: EditorHistoryAction,
)
    ensures
        ({
            let s = spec_history_step(undo, redo, current, action);
            s.0.len() + s.1.len() == undo.len() + redo.len()
        }),
{
}

} // verus!
