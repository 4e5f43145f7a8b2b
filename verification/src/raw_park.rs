//! The backend that waits through a park/unpark service keyed by address.
//!
//! The service itself is outside; what is decided here is when a caller may
//! go to sleep, and whom an episode's end wakes. The callers asleep are
//! counted.

use crate::episode::{decide, Action, Guard};
use crate::once::{once_state_for, OnceState, RawOnce};
use crate::raw_spin::AtomicState;
use crate::state::State;
use std::sync::atomic::Ordering;
use vstd::prelude::*;

verus! {

/// Whom the end of an episode wakes.
#[derive(Clone, Copy, Debug, PartialEq, Eq, Structural)]
pub enum Wake {
    /// Every parked caller: the initialization is complete.
    All,
    /// One parked caller: the episode failed and one contender suffices to
    /// try again.
    One,
}

/// The notification that goes with an episode's outcome.
pub open spec fn wake_for(ok: bool) -> Wake {
    if ok {
        Wake::All
    } else {
        Wake::One
    }
}

/// The number of callers still parked after a notification.
pub open spec fn parked_after(parked: nat, wake: Wake) -> nat {
    match wake {
        Wake::All => 0,
        Wake::One => if parked == 0 {
            0
        } else {
            (parked - 1) as nat
        },
    }
}

/// The check made together with registering for sleep: a caller may park
/// only while an initializer is still executing.
pub fn may_park(observed: State) -> (b: bool)
    ensures
        b == (observed == State::Running),
{
    observed == State::Running
}

/// What ends an episode: the state to store, then the notification to send.
pub fn release_plan(guard: Guard) -> (plan: (State, Wake))
    ensures
        plan.0 == guard.target(),
        plan.1 == wake_for(guard.committed()),
{
    let state = guard.finish();
    let wake = if state == State::Complete {
        Wake::All
    } else {
        Wake::One
    };
    (state, wake)
}

/// The parking backend: a state byte and the number of callers parked on it.
pub struct RawParkOnce {
    state: AtomicState,
    parked: usize,
}

impl RawParkOnce {
    /// The number of callers parked.
    pub closed spec fn parked(&self) -> nat {
        self.parked as nat
    }

    /// The state as it stands: one acquiring read.
    pub fn observe(&self) -> (state: State)
        ensures
            state == self.state(),
    {
        self.state.load(Ordering::Acquire)
    }

    /// One attempt to claim the episode from the state that the caller
    /// observed: a single compare-and-swap to `Running`. It succeeds if the
    /// state is still the one observed and an initializer may start from it.
    /// Otherwise nothing changes and the state found comes back. Nobody is
    /// woken or put to sleep.
    pub fn try_claim(&mut self, observed: State) -> (r: Result<OnceState, State>)
        requires
            old(self).inv(),
        ensures
            final(self).inv(),
            final(self).parked() == old(self).parked(),
            final(self).state() == old(self).state().after_claim(observed),
            r == if old(self).state() == observed && observed.claimable() {
                Ok::<OnceState, State>(once_state_for(observed))
            } else {
                Err::<OnceState, State>(old(self).state())
            },
    {
        let once_state = match decide(observed) {
            Action::Claim { poisoned: false } => OnceState::new(),
            Action::Claim { poisoned: true } => OnceState::poisoned(),
            _ => return Err(self.observe()),
        };
        match self.state.compare_exchange(
            observed,
            State::Running,
            Ordering::AcqRel,
            Ordering::Relaxed,
        ) {
            Ok(_) => Ok(once_state),
            Err(found) => Err(found),
        }
    }

    /// A caller asks to sleep until the episode in flight ends. It is parked
    /// if an initializer is executing; otherwise it is turned away and
    /// observes the state again.
    pub fn park(&mut self) -> (asleep: bool)
        requires
            old(self).inv(),
            old(self).parked() < usize::MAX,
        ensures
            final(self).inv(),
            asleep == (old(self).state() == State::Running),
            final(self).state() == old(self).state(),
            final(self).parked() == old(self).parked() + if asleep {
                1nat
            } else {
                0nat
            },
    {
        if may_park(self.observe()) {
            self.parked = self.parked + 1;
            true
        } else {
            false
        }
    }

    /// The number of callers parked.
    pub fn parked_count(&self) -> (n: usize)
        ensures
            n == self.parked(),
    {
        self.parked
    }

    fn unpark(&mut self, wake: Wake)
        ensures
            final(self).state() == old(self).state(),
            final(self).parked() == parked_after(old(self).parked(), wake),
    {
        match wake {
            Wake::All => {
                self.parked = 0;
            },
            Wake::One => {
                if self.parked > 0 {
                    self.parked = self.parked - 1;
                }
            },
        }
    }
}

impl RawOnce for RawParkOnce {
    closed spec fn state(&self) -> State {
        self.state@
    }

    /// Nobody sleeps on a completed initialization.
    closed spec fn inv(&self) -> bool {
        self.state@ == State::Complete ==> self.parked == 0
    }

    fn incomplete() -> (raw: Self)
        ensures
            raw.parked() == 0,
    {
        Self { state: AtomicState::new(State::Incomplete), parked: 0 }
    }

    fn complete() -> (raw: Self)
        ensures
            raw.parked() == 0,
    {
        Self { state: AtomicState::new(State::Complete), parked: 0 }
    }

    fn is_completed(&self) -> (b: bool) {
        self.state.load(Ordering::Acquire) == State::Complete
    }

    fn try_acquire(&mut self) -> (claimed: Option<OnceState>)
        ensures
            final(self).parked() == old(self).parked(),
    {
        loop
            invariant
                self.state() == old(self).state(),
                self.parked() == old(self).parked(),
                self.state() != State::Running,
                self.inv(),
            decreases 0int,
        {
            let observed = self.observe();
            match decide(observed) {
                Action::Wait => {
                    let _ = self.park();
                },
                Action::Return => return None,
                Action::Claim { .. } => {
                    if let Ok(once_state) = self.try_claim(observed) {
                        return Some(once_state);
                    }
                },
            }
        }
    }

    fn finish(&mut self, guard: Guard)
        ensures
            final(self).parked() == parked_after(old(self).parked(), wake_for(guard.committed())),
    {
        let (state, wake) = release_plan(guard);
        self.state.store(state, Ordering::Release);
        self.unpark(wake);
    }
}

} // verus!
