//! States, events, the transition table and the recorded transition history.

use vstd::prelude::*;

use crate::chars::{append_chars, chars_of, string_from_chars};

verus! {

/// Where the application is.
#[derive(Debug, Clone, Copy, PartialEq, Eq, Default, Structural)]
pub enum AppState {
    #[default]
    Idle,
    Preview,
    Editor,
}

/// What the user or the runtime asks for.
#[derive(Debug, Clone, Copy, PartialEq, Eq, Structural)]
pub enum AppEvent {
    Start,
    OpenPreview,
    OpenEditor,
    CloseEditor,
    ClosePreview,
}

/// One recorded transition.
#[derive(Debug, Clone, Copy, PartialEq, Eq, Structural)]
pub struct StateTransition {
    pub from: Option<AppState>,
    pub event: AppEvent,
    pub to: AppState,
}

impl StateTransition {
    pub fn new(from: Option<AppState>, event: AppEvent, to: AppState) -> (t: Self)
        ensures
            t == (StateTransition { from, event, to }),
    {
        StateTransition { from, event, to }
    }
}

/// Why a transition was refused.
#[derive(Debug, Clone, Copy, PartialEq, Eq, Structural)]
pub enum StateError {
    InvalidStateTransition { from: AppState, event: AppEvent },
}

/// The transition table: the state an event leads to, or `None` when it is not allowed.
pub open spec fn spec_next_state(state: AppState, event: AppEvent) -> Option<AppState> {
    match (state, event) {
        (AppState::Idle, AppEvent::Start) => Some(AppState::Idle),
        (AppState::Idle, AppEvent::OpenPreview) => Some(AppState::Preview),
        (AppState::Preview, AppEvent::OpenPreview) => Some(AppState::Preview),
        (AppState::Preview, AppEvent::OpenEditor) => Some(AppState::Editor),
        (AppState::Editor, AppEvent::CloseEditor) => Some(AppState::Preview),
        (AppState::Preview, AppEvent::ClosePreview) => Some(AppState::Idle),
        _ => None,
    }
}

/// A history is a chain of allowed transitions from `Idle` that ends in `state`.
#[verifier::opaque]
pub open spec fn spec_history_chain(history: Seq<StateTransition>, state: AppState) -> bool {
    &&& forall|i: int|
        0 <= i < history.len() ==> #[trigger] history[i].from == Some(
            if i == 0 {
                AppState::Idle
            } else {
                history[i - 1].to
            },
        )
    &&& forall|i: int|
        0 <= i < history.len() ==> spec_next_state((#[trigger] history[i]).from->0, history[i].event)
            == Some(history[i].to)
    &&& state == (if history.len() == 0 {
        AppState::Idle
    } else {
        history.last().to
    })
}

proof fn lemma_chain_push(history: Seq<StateTransition>, state: AppState, record: StateTransition)
    requires
        spec_history_chain(history, state),
        record.from == Some(state),
        spec_next_state(state, record.event) == Some(record.to),
    ensures
        spec_history_chain(history.push(record), record.to),
{
    reveal(spec_history_chain);
    let extended = history.push(record);
    assert forall|i: int| 0 <= i < extended.len() implies #[trigger] extended[i].from == Some(
        if i == 0 {
            AppState::Idle
        } else {
            extended[i - 1].to
        },
    ) by {
        if i < history.len() {
            assert(extended[i] == history[i]);
            if i > 0 {
                assert(extended[i - 1] == history[i - 1]);
            }
        }
    }
    assert forall|i: int| 0 <= i < extended.len() implies spec_next_state(
        (#[trigger] extended[i]).from->0,
        extended[i].event,
    ) == Some(extended[i].to) by {
        if i < history.len() {
            assert(extended[i] == history[i]);
        }
    }
}

/// The application state with the history of transitions that led to it.
#[derive(Debug)]
pub struct StateMachine {
    state: AppState,
    transition_history: Vec<StateTransition>,
}

impl StateMachine {
    /// The history always chains from `Idle` to the current state.
    #[verifier::type_invariant]
    closed spec fn history_chains(self) -> bool {
        spec_history_chain(self.transition_history@, self.state)
    }

    pub closed spec fn spec_state(&self) -> AppState {
        self.state
    }

    pub closed spec fn spec_history(&self) -> Seq<StateTransition> {
        self.transition_history@
    }

    /// Idle, with an empty history.
    pub fn new() -> (m: Self)
        ensures
            m.spec_state() == AppState::Idle,
            m.spec_history() == Seq::<StateTransition>::empty(),
    {
        proof {
            reveal(spec_history_chain);
        }
        StateMachine { state: AppState::Idle, transition_history: Vec::new() }
    }

    pub fn state(&self) -> (s: AppState)
        ensures
            s == self.spec_state(),
    {
        self.state
    }

    /// The state `event` would lead to from the current state.
    pub fn next_state(&self, event: AppEvent) -> (next: Option<AppState>)
        ensures
            next == spec_next_state(self.spec_state(), event),
    {
        match (self.state, event) {
            (AppState::Idle, AppEvent::Start) => Some(AppState::Idle),
            (AppState::Idle, AppEvent::OpenPreview) => Some(AppState::Preview),
            (AppState::Preview, AppEvent::OpenPreview) => Some(AppState::Preview),
            (AppState::Preview, AppEvent::OpenEditor) => Some(AppState::Editor),
            (AppState::Editor, AppEvent::CloseEditor) => Some(AppState::Preview),
            (AppState::Preview, AppEvent::ClosePreview) => Some(AppState::Idle),
            _ => None,
        }
    }

    pub fn can_transition(&self, event: AppEvent) -> (b: bool)
        ensures
            b == spec_next_state(self.spec_state(), event) is Some,
    {
        self.next_state(event).is_some()
    }

    /// Applies `event`: on success the state moves and the transition is recorded; a refused
    /// event changes nothing and reports the state and the event.
    pub fn transition(&mut self, event: AppEvent) -> (result: Result<AppState, StateError>)
        ensures
            match spec_next_state(old(self).spec_state(), event) {
                Some(next) => {
                    &&& result == Ok::<AppState, StateError>(next)
                    &&& final(self).spec_state() == next
                    &&& final(self).spec_history() == old(self).spec_history().push(
                        StateTransition { from: Some(old(self).spec_state()), event, to: next },
                    )
                },
                None => {
                    &&& result == Err::<AppState, StateError>(
                        StateError::InvalidStateTransition { from: old(self).spec_state(), event },
                    )
                    &&& final(self).spec_state() == old(self).spec_state()
                    &&& final(self).spec_history() == old(self).spec_history()
                },
            },
            spec_history_chain(final(self).spec_history(), final(self).spec_state()),
    {
        proof {
            use_type_invariant(&*self);
        }
        let next = match self.next_state(event) {
            Some(next) => next,
            None => {
                return Err(StateError::InvalidStateTransition { from: self.state, event });
            },
        };
        let record = StateTransition::new(Some(self.state), event, next);
        let ghost before = self.transition_history@;
        let ghost from = self.state;
        let mut taken = StateMachine::new();
        std::mem::swap(&mut taken, self);
        let StateMachine { state: _, transition_history: mut history } = taken;
        history.push(record);
        proof {
            lemma_chain_push(before, from, record);
        }
        *self = StateMachine { state: next, transition_history: history };
        Ok(self.state)
    }

    /// The transitions so far, oldest first.
    pub fn history(&self) -> (h: &[StateTransition])
        ensures
            h@ == self.spec_history(),
    {
        self.transition_history.as_slice()
    }
}

impl Default for StateMachine {
    fn default() -> (m: Self)
        ensures
            m.spec_state() == AppState::Idle,
            m.spec_history() == Seq::<StateTransition>::empty(),
    {
        Self::new()
    }
}

pub open spec fn spec_state_name(s: AppState) -> Seq<char> {
    match s {
        AppState::Idle => "Idle"@,
        AppState::Preview => "Preview"@,
        AppState::Editor => "Editor"@,
    }
}

pub open spec fn spec_event_name(e: AppEvent) -> Seq<char> {
    match e {
        AppEvent::Start => "Start"@,
        AppEvent::OpenPreview => "OpenPreview"@,
        AppEvent::OpenEditor => "OpenEditor"@,
        AppEvent::CloseEditor => "CloseEditor"@,
        AppEvent::ClosePreview => "ClosePreview"@,
    }
}

pub(crate) fn state_name(s: AppState) -> (n: &'static str)
    ensures
        n@ == spec_state_name(s),
{
    match s {
        AppState::Idle => "Idle",
        AppState::Preview => "Preview",
        AppState::Editor => "Editor",
    }
}

fn event_name(e: AppEvent) -> (n: &'static str)
    ensures
        n@ == spec_event_name(e),
{
    match e {
        AppEvent::Start => "Start",
        AppEvent::OpenPreview => "OpenPreview",
        AppEvent::OpenEditor => "OpenEditor",
        AppEvent::CloseEditor => "CloseEditor",
        AppEvent::ClosePreview => "ClosePreview",
    }
}

impl StateError {
    /// The error as shown to the user.
    pub fn describe(&self) -> (s: String)
        ensures
            s@ == (match *self {
                StateError::InvalidStateTransition { from, event } => "invalid state transition: from "@
                    + spec_state_name(from) + " using event "@ + spec_event_name(event),
            }),
    {
        match *self {
            StateError::InvalidStateTransition { from, event } => {
                let mut v = chars_of("invalid state transition: from ");
                append_chars(&mut v, &chars_of(state_name(from)));
                append_chars(&mut v, &chars_of(" using event "));
                append_chars(&mut v, &chars_of(event_name(event)));
                string_from_chars(&v)
            },
        }
    }
}

} // verus!
