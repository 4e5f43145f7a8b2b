//! The busy-wait backend: one state byte, claimed by compare-and-swap.

use crate::episode::{decide, Action, Guard};
use crate::once::{once_state_for, OnceState, RawOnce};
use crate::state::State;
use std::sync::atomic::Ordering;
use vstd::prelude::*;

verus! {

/// An ordering that a load accepts: a load does not release.
pub open spec fn may_load(order: Ordering) -> bool {
    match order {
        Ordering::Release | Ordering::AcqRel => false,
        _ => true,
    }
}

/// An ordering that a store accepts: a store does not acquire.
pub open spec fn may_store(order: Ordering) -> bool {
    match order {
        Ordering::Acquire | Ordering::AcqRel => false,
        _ => true,
    }
}

/// An ordering under which a read sees what was written before the value
/// it reads was released.
pub open spec fn acquires(order: Ordering) -> bool {
    match order {
        Ordering::Acquire | Ordering::AcqRel | Ordering::SeqCst => true,
        _ => false,
    }
}

/// An ordering under which a write publishes what was written before it.
pub open spec fn releases(order: Ordering) -> bool {
    match order {
        Ordering::Release | Ordering::AcqRel | Ordering::SeqCst => true,
        _ => false,
    }
}

/// A cell that holds a lifecycle state as its two-bit encoding.
///
/// Its operations take the memory orderings of an atomic byte. What they
/// return does not depend on the ordering; the preconditions hold the
/// lifecycle's discipline: every read that may gate entry to an episode or
/// to the value acquires, and the store of a terminal state releases.
pub struct AtomicState(u8);

impl View for AtomicState {
    type V = State;

    closed spec fn view(&self) -> State {
        State::of_tag(self.0)
    }
}

impl AtomicState {
    #[verifier::type_invariant]
    spec fn encodes_a_state(&self) -> bool {
        self.0 < 4
    }

    pub fn new(state: State) -> (cell: Self)
        ensures
            cell@ == state,
    {
        Self(state.to_u8())
    }

    /// Replaces the state by `new` if it is `current`, and reports the state
    /// found: as `Ok` if it was replaced, as `Err` if not.
    pub fn compare_exchange(
        &mut self,
        current: State,
        new: State,
        success: Ordering,
        failure: Ordering,
    ) -> (r: Result<State, State>)
        requires
            acquires(success),
            may_load(failure),
        ensures
            old(self)@ == current ==> r == Ok::<State, State>(current) && final(self)@ == new,
            old(self)@ != current ==> r == Err::<State, State>(old(self)@),
            old(self)@ != current ==> final(self)@ == old(self)@,
    {
        proof {
            use_type_invariant(&*self);
        }
        let found: u8 = self.0;
        if found == current.to_u8() {
            self.0 = new.to_u8();
            Ok(State::from_u8(found))
        } else {
            Err(State::from_u8(found))
        }
    }

    pub fn load(&self, order: Ordering) -> (state: State)
        requires
            may_load(order),
            acquires(order),
        ensures
            state == self@,
    {
        proof {
            use_type_invariant(self);
        }
        State::from_u8(self.0)
    }

    pub fn store(&mut self, value: State, order: Ordering)
        requires
            may_store(order),
            value == State::Complete || value == State::Poisoned ==> releases(order),
        ensures
            final(self)@ == value,
    {
        self.0 = value.to_u8();
    }
}

/// The error of a call made from inside the initializer of the same
/// instance.
#[derive(Clone, Copy, Debug, PartialEq, Eq, Structural)]
pub struct Reentrant;

/// The backend that waits by spinning.
pub struct RawSpinOnce {
    state: AtomicState,
}

impl RawSpinOnce {
    /// Spins for as long as an initializer is executing. The owner of the
    /// instance is outside every episode, so for it the wait is over at the
    /// first look.
    pub fn wait_busy(&self)
        requires
            self.state() != State::Running,
        ensures
            self.state() != State::Running,
    {
        while self.state.load(Ordering::Acquire) == State::Running
            invariant
                self.state() != State::Running,
            decreases 0int,
        {
            std::hint::spin_loop()
        }
    }

    /// The state as it stands: one acquiring read.
    pub fn observe(&self) -> (state: State)
        ensures
            state == self.state(),
    {
        self.state.load(Ordering::Acquire)
    }

    /// One attempt to claim the episode from the state that the caller
    /// observed: a single compare-and-swap to `Running`. It succeeds if the
    /// state is still the one observed and an initializer may start from it;
    /// the caller then owns the episode and gets the value to hand to its
    /// initializer. Otherwise nothing changes and the state found comes back.
    pub fn try_claim(&mut self, observed: State) -> (r: Result<OnceState, State>)
        ensures
            final(self).state() == old(self).state().after_claim(observed),
            r == if old(self).state() == observed && observed.claimable() {
                Ok::<OnceState, State>(once_state_for(observed))
            } else {
                Err::<OnceState, State>(old(self).state())
            },
    {
        let once_state = match decide(observed) {
            Action::Claim { poisoned: false } => OnceState::new(),
            Action::Claim { poisoned: true } => OnceState::poisoned(),
            _ => return Err(self.observe()),
        };
        match self.state.compare_exchange(
            observed,
            State::Running,
            Ordering::AcqRel,
            Ordering::Relaxed,
        ) {
            Ok(_) => Ok(once_state),
            Err(found) => Err(found),
        }
    }

    /// Claims the episode for a caller that already excludes all others, as
    /// inside a critical section: there is nobody to wait for, so finding an
    /// initializer executing means that the caller itself is inside it, and
    /// that is reported. Otherwise as `try_acquire`.
    pub fn acquire_exclusive(&mut self) -> (claimed: Result<Option<OnceState>, Reentrant>)
        ensures
            old(self).state() == State::Running ==> claimed is Err && final(self).state()
                == State::Running,
            old(self).state() == State::Complete ==> claimed == Ok::<Option<OnceState>, Reentrant>(
                None,
            ) && final(self).state() == State::Complete,
            old(self).state().claimable() ==> claimed == Ok::<Option<OnceState>, Reentrant>(
                Some(once_state_for(old(self).state())),
            ) && final(self).state() == State::Running,
    {
        let once_state = match self.state.load(Ordering::Acquire) {
            State::Running => return Err(Reentrant),
            State::Complete => return Ok(None),
            State::Poisoned => OnceState::poisoned(),
            State::Incomplete => OnceState::new(),
        };
        self.state.store(State::Running, Ordering::Relaxed);
        Ok(Some(once_state))
    }
}

impl RawOnce for RawSpinOnce {
    closed spec fn state(&self) -> State {
        self.state@
    }

    open spec fn inv(&self) -> bool {
        true
    }

    fn incomplete() -> (raw: Self) {
        Self { state: AtomicState::new(State::Incomplete) }
    }

    fn complete() -> (raw: Self) {
        Self { state: AtomicState::new(State::Complete) }
    }

    fn is_completed(&self) -> (b: bool) {
        self.state.load(Ordering::Acquire) == State::Complete
    }

    /// Observes, then claims by compare-and-swap from the state observed.
    /// With the instance owned exclusively nobody else moves the state, so
    /// the paths that wait and that retry a lost swap are never taken.
    fn try_acquire(&mut self) -> (claimed: Option<OnceState>) {
        loop
            invariant
                self.state() == old(self).state(),
                self.state() != State::Running,
            decreases 0int,
        {
            let observed = self.observe();
            match decide(observed) {
                Action::Wait => {
                    self.wait_busy();
                },
                Action::Return => return None,
                Action::Claim { .. } => {
                    if let Ok(once_state) = self.try_claim(observed) {
                        return Some(once_state);
                    }
                },
            }
        }
    }

    fn finish(&mut self, guard: Guard) {
        self.state.store(guard.finish(), Ordering::Release);
    }
}

/// `std::hint::spin_loop` tells the processor that the caller is in a
/// busy-wait loop. It takes and returns nothing, and nothing is claimed of
/// it but that it returns.
pub assume_specification[ std::hint::spin_loop ]();

} // verus!
