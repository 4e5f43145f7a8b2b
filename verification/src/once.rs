//! The contract every backend meets, and the run-once callback built on it.

use crate::episode::Guard;
use crate::state::State;
use std::convert::Infallible;
use vstd::prelude::*;

verus! {

/// What an initializer is told on its one invocation: whether it recovers
/// from a failed earlier attempt.
#[derive(Debug)]
pub struct OnceState {
    is_poisoned: bool,
}

impl OnceState {
    /// The value that carries the given flag.
    pub closed spec fn with_flag(poisoned: bool) -> OnceState {
        OnceState { is_poisoned: poisoned }
    }

    /// The flag this value carries.
    pub closed spec fn flag(&self) -> bool {
        self.is_poisoned
    }

    pub fn new() -> (s: Self)
        ensures
            s == Self::with_flag(false),
            !s.flag(),
    {
        Self { is_poisoned: false }
    }

    pub fn poisoned() -> (s: Self)
        ensures
            s == Self::with_flag(true),
            s.flag(),
    {
        Self { is_poisoned: true }
    }

    pub fn poison(&mut self) -> (s: &mut Self)
        ensures
            *s == Self::with_flag(true),
            *final(self) == *final(s),
    {
        self.is_poisoned = true;
        self
    }

    pub fn is_poisoned(&self) -> (b: bool)
        ensures
            b == self.flag(),
            *self == Self::with_flag(b),
    {
        self.is_poisoned
    }
}

impl Default for OnceState {
    fn default() -> (s: Self)
        ensures
            s == Self::with_flag(false),
    {
        Self::new()
    }
}

/// The value handed to an initializer that starts from the given state.
pub open spec fn once_state_for(before: State) -> OnceState {
    OnceState::with_flag(before == State::Poisoned)
}

/// A value's flag is what it was made with, and the flag determines the value.
pub proof fn lemma_once_state_flag(s: OnceState, poisoned: bool)
    ensures
        OnceState::with_flag(poisoned).flag() == poisoned,
        s == OnceState::with_flag(s.flag()),
{
}

/// The primitive that manages one lifecycle. A backend is a value with a
/// lifecycle state; `call` runs an initializer under the lifecycle's rules.
pub trait RawOnce: Sized {
    /// The lifecycle state of this instance.
    spec fn state(&self) -> State;

    /// The backend's own consistency condition. Every operation expects it
    /// and keeps it.
    spec fn inv(&self) -> bool;

    /// An instance on which nothing was attempted.
    fn incomplete() -> (raw: Self)
        ensures
            raw.inv(),
            raw.state() == State::Incomplete,
    ;

    /// An instance that is complete from the start.
    fn complete() -> (raw: Self)
        ensures
            raw.inv(),
            raw.state() == State::Complete,
    ;

    /// Whether the initialization has completed successfully.
    fn is_completed(&self) -> (b: bool)
        requires
            self.inv(),
        ensures
            b == (self.state() == State::Complete),
    ;

    /// Claims the exclusive episode. On a complete instance nothing is
    /// claimed. Otherwise the instance becomes `Running` and the caller gets
    /// the value to hand to its initializer; it owes a call of `finish`.
    fn try_acquire(&mut self) -> (claimed: Option<OnceState>)
        requires
            old(self).inv(),
            old(self).state() != State::Running,
        ensures
            final(self).inv(),
            old(self).state() == State::Complete ==> claimed is None && final(self).state()
                == State::Complete,
            old(self).state() != State::Complete ==> claimed == Some(
                once_state_for(old(self).state()),
            ) && final(self).state() == State::Running,
    ;

    /// Ends the episode in flight: the instance takes the guard's target
    /// state, `Complete` if the guard was committed and `Poisoned` if not.
    fn finish(&mut self, guard: Guard)
        requires
            old(self).inv(),
            old(self).state() == State::Running,
        ensures
            final(self).inv(),
            final(self).state() == guard.target(),
    ;

    /// Runs `f` unless the instance is complete. A complete instance is left
    /// alone and `f` is not called (its precondition is not even asked for).
    /// Otherwise `f` is called once, with the poison flag of the state found,
    /// its result is returned, and the instance ends `Complete` if `f`
    /// succeeded and `Poisoned` if it failed. The owner of an instance never
    /// finds it `Running`: that would be a call from inside the initializer.
    fn call<F, E>(&mut self, f: F) -> (r: Result<(), E>) where
        F: FnOnce(&OnceState) -> Result<(), E>,

        requires
            old(self).inv(),
            old(self).state() != State::Running,
            old(self).state() != State::Complete ==> f.requires(
                (&once_state_for(old(self).state()),),
            ),
        ensures
            final(self).inv(),
            old(self).state() == State::Complete ==> r is Ok && final(self).state()
                == State::Complete,
            old(self).state() != State::Complete ==> f.ensures(
                (&once_state_for(old(self).state()),),
                r,
            ) && final(self).state() == State::outcome(r is Ok),
    {
        let once_state = match self.try_acquire() {
            Some(once_state) => once_state,
            None => return Ok(()),
        };
        let mut guard = Guard::new();
        let r = f(&once_state);
        if r.is_ok() {
            guard.commit();
        }
        self.finish(guard);
        r
    }
}

/// A callback that runs at most once to success.
pub struct Once<R> {
    raw: R,
}

impl<R: RawOnce> Once<R> {
    /// The lifecycle state of the underlying backend.
    pub closed spec fn state(&self) -> State {
        self.raw.state()
    }

    /// The backend is consistent.
    pub closed spec fn wf(&self) -> bool {
        self.raw.inv()
    }

    pub fn new() -> (once: Self)
        ensures
            once.wf(),
            once.state() == State::Incomplete,
    {
        Self { raw: R::incomplete() }
    }

    /// Runs `f` unless a call has already succeeded. A poisoned instance is
    /// fatal here: the precondition excludes it, as it does one found
    /// `Running`, and the poison flag is still tested before `f` runs.
    pub fn call_once<F>(&mut self, f: F) where F: FnOnce()
        requires
            old(self).wf(),
            old(self).state() == State::Incomplete || old(self).state() == State::Complete,
            old(self).state() == State::Incomplete ==> f.requires(()),
        ensures
            final(self).wf(),
            final(self).state() == State::Complete,
            old(self).state() == State::Incomplete ==> f.ensures((), ()),
    {
        let g = |state: &OnceState| -> (r: ())
            requires
                !state.flag(),
                f.requires(()),
            ensures
                f.ensures((), ()),
            {
                if state.is_poisoned() {
                    vstd::pervasive::unreached::<()>();
                }
                f();
            };
        proof {
            lemma_once_state_flag(once_state_for(self.state()), false);
        }
        self.call_once_force(g)
    }

    /// Runs `f` unless a call has already succeeded, telling it whether it
    /// recovers from a failed attempt.
    pub fn call_once_force<F>(&mut self, f: F) where F: FnOnce(&OnceState)
        requires
            old(self).wf(),
            old(self).state() != State::Running,
            old(self).state() != State::Complete ==> f.requires(
                (&once_state_for(old(self).state()),),
            ),
        ensures
            final(self).wf(),
            final(self).state() == State::Complete,
            old(self).state() != State::Complete ==> f.ensures(
                (&once_state_for(old(self).state()),),
                (),
            ),
    {
        let g = |state: &OnceState| -> (r: Result<(), Infallible>)
            requires
                f.requires((state,)),
            ensures
                r is Ok,
                f.ensures((state,), ()),
            {
                f(state);
                Ok(())
            };
        let _ = self.try_call_once_force(g);
    }

    /// As `call_once`, for an initializer that may fail. A failure is
    /// returned to the caller and leaves the instance `Poisoned`.
    pub fn try_call_once<F, E>(&mut self, f: F) -> (r: Result<(), E>) where
        F: FnOnce() -> Result<(), E>,

        requires
            old(self).wf(),
            old(self).state() == State::Incomplete || old(self).state() == State::Complete,
            old(self).state() == State::Incomplete ==> f.requires(()),
        ensures
            final(self).wf(),
            old(self).state() == State::Complete ==> r is Ok && final(self).state()
                == State::Complete,
            old(self).state() == State::Incomplete ==> f.ensures((), r) && final(self).state()
                == State::outcome(r is Ok),
    {
        let g = |state: &OnceState| -> (r: Result<(), E>)
            requires
                !state.flag(),
                f.requires(()),
            ensures
                f.ensures((), r),
            {
                if state.is_poisoned() {
                    vstd::pervasive::unreached::<()>();
                }
                f()
            };
        proof {
            lemma_once_state_flag(once_state_for(self.state()), false);
        }
        self.try_call_once_force(g)
    }

    /// As `call_once_force`, for an initializer that may fail.
    pub fn try_call_once_force<F, E>(&mut self, f: F) -> (r: Result<(), E>) where
        F: FnOnce(&OnceState) -> Result<(), E>,

        requires
            old(self).wf(),
            old(self).state() != State::Running,
            old(self).state() != State::Complete ==> f.requires(
                (&once_state_for(old(self).state()),),
            ),
        ensures
            final(self).wf(),
            old(self).state() == State::Complete ==> r is Ok && final(self).state()
                == State::Complete,
            old(self).state() != State::Complete ==> f.ensures(
                (&once_state_for(old(self).state()),),
                r,
            ) && final(self).state() == State::outcome(r is Ok),
    {
        if self.is_completed() {
            Ok(())
        } else {
            self.raw.call(f)
        }
    }

    pub fn is_completed(&self) -> (b: bool)
        requires
            self.wf(),
        ensures
            b == (self.state() == State::Complete),
    {
        self.raw.is_completed()
    }
}

impl<R: RawOnce> Default for Once<R> {
    fn default() -> (once: Self)
        ensures
            once.wf(),
            once.state() == State::Incomplete,
    {
        Self::new()
    }
}

} // verus!
