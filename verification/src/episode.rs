//! What a caller does with an observed state, and the commit-or-rollback
//! record that ends an episode.

use crate::state::State;
use vstd::prelude::*;

verus! {

/// What a caller does after observing the lifecycle state.
#[derive(Clone, Copy, Debug, PartialEq, Eq, Structural)]
pub enum Action {
    /// The initialization is complete: return without running anything.
    Return,
    /// Another caller's initializer is executing: wait, then observe again.
    Wait,
    /// Try to move the observed state to `Running`; on success run the
    /// initializer, telling it whether it recovers from a failure.
    Claim { poisoned: bool },
}

/// The action that an observed state calls for.
pub open spec fn action_for(observed: State) -> Action {
    match observed {
        State::Complete => Action::Return,
        State::Running => Action::Wait,
        State::Incomplete => Action::Claim { poisoned: false },
        State::Poisoned => Action::Claim { poisoned: true },
    }
}

pub fn decide(observed: State) -> (action: Action)
    ensures
        action == action_for(observed),
{
    match observed {
        State::Complete => Action::Return,
        State::Running => Action::Wait,
        State::Incomplete => Action::Claim { poisoned: false },
        State::Poisoned => Action::Claim { poisoned: true },
    }
}

/// The record of one episode in flight. Unless `commit` is called, ending
/// the episode rolls back: the state it leaves is `Poisoned`.
#[derive(Debug)]
pub struct Guard {
    committed: bool,
}

impl Guard {
    /// Whether `commit` has been called.
    pub closed spec fn committed(&self) -> bool {
        self.committed
    }

    /// The state that ending the episode leaves.
    pub open spec fn target(&self) -> State {
        State::outcome(self.committed())
    }

    /// A record for an episode that has just claimed `Running`.
    pub fn new() -> (guard: Self)
        ensures
            !guard.committed(),
            guard.target() == State::Poisoned,
    {
        Guard { committed: false }
    }

    /// Marks the episode as successful.
    pub fn commit(&mut self)
        ensures
            final(self).committed(),
            final(self).target() == State::Complete,
    {
        self.committed = true;
    }

    /// Ends the episode and hands out the state to publish.
    pub fn finish(self) -> (state: State)
        ensures
            state == self.target(),
            State::Running.steps_to(state),
    {
        if self.committed {
            State::Complete
        } else {
            State::Poisoned
        }
    }
}

} // verus!
