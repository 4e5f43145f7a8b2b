//! The four-state lifecycle shared by every backend.

use vstd::prelude::*;

verus! {

/// Where a one-time initialization stands.
#[derive(Clone, Copy, Debug, PartialEq, Eq, Structural)]
pub enum State {
    /// No initializer has been attempted.
    Incomplete,
    /// One initializer is executing, exclusively.
    Running,
    /// An initializer succeeded; permanent.
    Complete,
    /// The last initializer failed; a later caller may retry.
    Poisoned,
}

impl State {
    /// The two-bit encoding of a state.
    pub open spec fn tag(self) -> u8 {
        match self {
            State::Incomplete => 0,
            State::Running => 1,
            State::Complete => 2,
            State::Poisoned => 3,
        }
    }

    /// The state that a byte below four encodes.
    pub open spec fn of_tag(byte: u8) -> State {
        if byte == 0 {
            State::Incomplete
        } else if byte == 1 {
            State::Running
        } else if byte == 2 {
            State::Complete
        } else {
            State::Poisoned
        }
    }

    /// An initializer may be started from this state.
    pub open spec fn claimable(self) -> bool {
        self == State::Incomplete || self == State::Poisoned
    }

    /// The state an episode ends in: `Complete` on success, else `Poisoned`.
    pub open spec fn outcome(ok: bool) -> State {
        if ok {
            State::Complete
        } else {
            State::Poisoned
        }
    }

    /// The state after an attempt to claim the episode by a compare-and-swap
    /// from `observed`: `Running` if this state is the one observed and is
    /// claimable, else this state unchanged.
    pub open spec fn after_claim(self, observed: State) -> State {
        if self == observed && observed.claimable() {
            State::Running
        } else {
            self
        }
    }

    /// The lifecycle's only moves: a claimable state to `Running`, and
    /// `Running` to one of the two outcomes.
    pub open spec fn steps_to(self, next: State) -> bool {
        ||| self.claimable() && next == State::Running
        ||| self == State::Running && (next == State::Complete || next == State::Poisoned)
    }

    pub fn to_u8(self) -> (byte: u8)
        ensures
            byte == self.tag(),
            byte < 4,
    {
        match self {
            State::Incomplete => 0,
            State::Running => 1,
            State::Complete => 2,
            State::Poisoned => 3,
        }
    }

    pub fn from_u8(byte: u8) -> (state: State)
        requires
            byte < 4,
        ensures
            state == State::of_tag(byte),
            state.tag() == byte,
    {
        match byte {
            0 => State::Incomplete,
            1 => State::Running,
            2 => State::Complete,
            _ => State::Poisoned,
        }
    }

    pub fn is_claimable(self) -> (b: bool)
        ensures
            b == self.claimable(),
    {
        match self {
            State::Incomplete | State::Poisoned => true,
            _ => false,
        }
    }
}

/// Encoding a state and decoding the byte gives the state back.
pub proof fn lemma_tag_round_trip(state: State)
    ensures
        State::of_tag(state.tag()) == state,
        state.tag() < 4,
{
}

/// `Complete` is absorbing: the lifecycle has no move out of it, and no
/// attempt to claim changes it.
pub proof fn lemma_complete_absorbing(next: State, observed: State)
    ensures
        !State::Complete.steps_to(next),
        State::Complete.after_claim(observed) == State::Complete,
{
}

/// An attempt to claim leaves the state alone or moves it along the
/// lifecycle, and leaves a running episode alone.
pub proof fn lemma_claim_is_a_move(state: State, observed: State)
    ensures
        state.after_claim(observed) == state || state.steps_to(state.after_claim(observed)),
        State::Running.after_claim(observed) == State::Running,
{
}

} // verus!
