//! A storage slot that is filled at most once, guarded by a backend.

use crate::episode::Guard;
use crate::once::RawOnce;
use crate::state::State;
use std::convert::Infallible;
use vstd::prelude::*;

verus! {

/// Unwraps a result whose error type has no values. Verus does not see that
/// the type is empty, so the caller shows that the result is `Ok`.
pub(crate) fn into_ok<T>(result: Result<T, Infallible>) -> (value: T)
    requires
        result is Ok,
    ensures
        result == Ok::<T, Infallible>(value),
{
    match result {
        Ok(value) => value,
        Err(_) => vstd::pervasive::unreached(),
    }
}

/// One optional value and the backend that guards it.
pub struct OnceLock<R, T> {
    once: R,
    value: Option<T>,
}

impl<R: RawOnce, T> View for OnceLock<R, T> {
    type V = Option<T>;

    /// What the slot holds.
    closed spec fn view(&self) -> Option<T> {
        self.value
    }
}

impl<R: RawOnce, T> OnceLock<R, T> {
    /// The lifecycle state of the guarding backend.
    pub closed spec fn state(&self) -> State {
        self.once.state()
    }

    /// The guarding backend is consistent.
    pub closed spec fn backend_inv(&self) -> bool {
        self.once.inv()
    }

    /// The slot holds a value exactly when the backend is complete, and no
    /// episode is in flight.
    pub open spec fn wf(&self) -> bool {
        &&& self.backend_inv()
        &&& self.state() != State::Running
        &&& self@ is Some <==> self.state() == State::Complete
    }

    pub fn new() -> (cell: Self)
        ensures
            cell.wf(),
            cell@ is None,
            cell.state() == State::Incomplete,
    {
        Self { once: R::incomplete(), value: None }
    }

    pub fn with_value(value: T) -> (cell: Self)
        ensures
            cell.wf(),
            cell@ == Some(value),
            cell.state() == State::Complete,
    {
        Self { once: R::complete(), value: Some(value) }
    }

    /// The value, if the cell is complete.
    pub fn get(&self) -> (r: Option<&T>)
        requires
            self.wf(),
        ensures
            self@ == match r {
                Some(v) => Some(*v),
                None => None,
            },
    {
        if self.once.is_completed() {
            Some(self.get_unchecked())
        } else {
            None
        }
    }

    /// Access to the value through unique ownership; the backend is not
    /// consulted.
    pub fn get_mut(&mut self) -> (r: Option<&mut T>)
        requires
            old(self).wf(),
        ensures
            final(self).wf(),
            final(self).state() == old(self).state(),
            match r {
                Some(v) => old(self)@ == Some(*v) && final(self)@ == Some(*final(v)),
                None => old(self)@ is None && final(self)@ is None,
            },
    {
        self.value.as_mut()
    }

    /// The value of a cell that holds one.
    pub fn get_unchecked(&self) -> (v: &T)
        requires
            self@ is Some,
        ensures
            self@ == Some(*v),
    {
        self.value.as_ref().unwrap()
    }

    pub fn into_inner(self) -> (r: Option<T>)
        ensures
            r == self@,
    {
        self.value
    }

    /// Empties the cell and hands out what it held; the cell is as new.
    pub fn take(&mut self) -> (r: Option<T>)
        ensures
            r == old(self)@,
            final(self)@ is None,
            final(self).state() == State::Incomplete,
            final(self).wf(),
    {
        let mut fresh = Self::new();
        std::mem::swap(self, &mut fresh);
        fresh.into_inner()
    }

    /// Fills an empty cell with `value`. A complete cell is left as it is
    /// and the value comes back.
    pub fn set(&mut self, value: T) -> (r: Result<(), T>)
        requires
            old(self).wf(),
        ensures
            final(self).wf(),
            old(self)@ is Some ==> r == Err::<(), T>(value) && final(self)@ == old(self)@,
            old(self)@ is None ==> r == Ok::<(), T>(()) && final(self)@ == Some(value),
    {
        if self.get().is_some() {
            return Err(value);
        }
        match self.once.try_acquire() {
            None => Err(value),
            Some(_) => {
                let mut guard = Guard::new();
                self.value = Some(value);
                guard.commit();
                self.once.finish(guard);
                Ok(())
            },
        }
    }

    /// Fills an empty cell with `value` and returns the value now present;
    /// on a complete cell, the value present and `value` itself.
    pub fn try_insert(&mut self, value: T) -> (r: Result<&T, (&T, T)>)
        requires
            old(self).wf(),
        ensures
            final(self).wf(),
            old(self)@ is None ==> r == Ok::<&T, (&T, T)>(&value) && final(self)@ == Some(value),
            old(self)@ is Some ==> r == Err::<&T, (&T, T)>((&old(self)@->0, value)) && final(self)@
                == old(self)@,
    {
        let result = self.set(value);
        let present = self.get_unchecked();
        match result {
            Ok(_) => Ok(present),
            Err(value) => Err((present, value)),
        }
    }

    /// The value of the cell, computed by `f` if the cell is empty. On a
    /// complete cell `f` is not called.
    pub fn get_or_init<F>(&mut self, f: F) -> (v: &T) where F: FnOnce() -> T
        requires
            old(self).wf(),
            old(self)@ is None ==> f.requires(()),
        ensures
            final(self).wf(),
            final(self)@ == Some(*v),
            old(self)@ is Some ==> old(self)@ == Some(*v),
            old(self)@ is None ==> f.ensures((), *v),
    {
        let g = || -> (r: Result<T, Infallible>)
            requires
                f.requires(()),
            ensures
                r is Ok,
                f.ensures((), r->Ok_0),
            {
                Ok(f())
            };
        into_ok(self.get_or_try_init(g))
    }

    /// As `get_or_init`, for an initializer that may fail. A failure is
    /// returned, the cell stays empty and its backend is poisoned; a later
    /// call may succeed.
    pub fn get_or_try_init<F, E>(&mut self, f: F) -> (r: Result<&T, E>) where
        F: FnOnce() -> Result<T, E>,

        requires
            old(self).wf(),
            old(self)@ is None ==> f.requires(()),
        ensures
            final(self).wf(),
            old(self)@ is Some ==> r == Ok::<&T, E>(&old(self)@->0) && final(self)@ == old(self)@,
            old(self)@ is None ==> match r {
                Ok(v) => f.ensures((), Ok(*v)) && final(self)@ == Some(*v),
                Err(e) => f.ensures((), Err(e)) && final(self)@ is None && final(self).state()
                    == State::Poisoned,
            },
    {
        match self.once.try_acquire() {
            None => Ok(self.get_unchecked()),
            Some(_) => {
                let mut guard = Guard::new();
                match f() {
                    Ok(value) => {
                        self.value = Some(value);
                        guard.commit();
                        self.once.finish(guard);
                        Ok(self.get_unchecked())
                    },
                    Err(e) => {
                        self.once.finish(guard);
                        Err(e)
                    },
                }
            },
        }
    }
}

impl<R: RawOnce, T: Clone> Clone for OnceLock<R, T> {
    /// A cell of its own: complete with a clone of the value if there is
    /// one, else as new.
    fn clone(&self) -> (cell: Self)
        ensures
            cell.wf(),
            self@ is None ==> cell@ is None && cell.state() == State::Incomplete,
            self@ is Some ==> cell@ is Some && cloned(self@->0, cell@->0),
    {
        match &self.value {
            Some(v) => Self::with_value(v.clone()),
            None => Self::new(),
        }
    }
}

impl<R: RawOnce, T> Default for OnceLock<R, T> {
    fn default() -> (cell: Self)
        ensures
            cell.wf(),
            cell@ is None,
            cell.state() == State::Incomplete,
    {
        Self::new()
    }
}

} // verus!
