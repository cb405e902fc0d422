//! The per-session record of cosmetic fields the picker is shown.

use vstd::prelude::*;

verus! {

/// The per-session state: the most recent title and description since the
/// last reset or session start.
#[derive(Debug, Clone, PartialEq, Eq)]
pub struct SessionState {
    pub title: Option<String>,
    pub description: Option<String>,
}

/// Mathematical model of a [`SessionState`].
pub struct StateV {
    pub title: Option<Seq<char>>,
    pub description: Option<Seq<char>>,
}

/// The view of an optional owned string.
pub open spec fn opt_field_view(o: Option<String>) -> Option<Seq<char>> {
    match o {
        Some(s) => Some(s@),
        None => None,
    }
}

impl View for SessionState {
    type V = StateV;

    open spec fn view(&self) -> StateV {
        StateV {
            title: opt_field_view(self.title),
            description: opt_field_view(self.description),
        }
    }
}

/// The state a session starts in: both fields empty.
pub open spec fn initial_state() -> StateV {
    StateV { title: None, description: None }
}

impl SessionState {
    /// A fresh session state with both fields empty.
    pub fn new() -> (s: Self)
        ensures
            s@ == initial_state(),
    {
        SessionState { title: None, description: None }
    }

    /// Forget both fields, restoring the initial state.
    pub fn reset(&mut self)
        ensures
            final(self)@ == initial_state(),
    {
        self.title = None;
        self.description = None;
    }
}

} // verus!
