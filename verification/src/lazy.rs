//! A value computed on first use.

use crate::once::RawOnce;
use crate::once_lock::OnceLock;
use vstd::prelude::*;

verus! {

/// A cell paired with the initializer that will fill it.
pub struct LazyLock<R, T, F> {
    cell: OnceLock<R, T>,
    init: Option<F>,
}

impl<R: RawOnce, T, F> LazyLock<R, T, F> {
    /// The value, once it has been computed.
    pub closed spec fn value(&self) -> Option<T> {
        self.cell@
    }

    /// The initializer, until it has been consumed.
    pub closed spec fn pending(&self) -> Option<F> {
        self.init
    }

    /// The cell is well formed, and while it is empty the initializer is
    /// still there.
    pub closed spec fn wf(&self) -> bool {
        &&& self.cell.wf()
        &&& self.cell@ is None ==> self.init is Some
    }

    pub fn new(init: F) -> (lazy: Self)
        ensures
            lazy.wf(),
            lazy.value() is None,
            lazy.pending() == Some(init),
    {
        Self { cell: OnceLock::new(), init: Some(init) }
    }
}

impl<R: RawOnce, T, F: FnOnce() -> T> LazyLock<R, T, F> {
    /// The value, computed now if this is the first use. The initializer is
    /// consumed by its one call; later uses find the value.
    pub fn force(this: &mut Self) -> (v: &T)
        requires
            old(this).wf(),
            old(this).value() is None ==> old(this).pending()->0.requires(()),
        ensures
            final(this).wf(),
            final(this).value() == Some(*v),
            old(this).value() is Some ==> old(this).value() == Some(*v) && final(this).pending()
                == old(this).pending(),
            old(this).value() is None ==> old(this).pending()->0.ensures((), *v),
            old(this).value() is None ==> final(this).pending() is None,
    {
        if this.cell.get().is_none() {
            match this.init.take() {
                Some(init) => this.cell.get_or_init(init),
                None => vstd::pervasive::unreached(),
            }
        } else {
            this.cell.get_unchecked()
        }
    }

    /// As `force`, with unique access to the value.
    pub fn force_mut(this: &mut Self) -> (v: &mut T)
        requires
            old(this).wf(),
            old(this).value() is None ==> old(this).pending()->0.requires(()),
        ensures
            final(this).wf(),
            final(this).value() == Some(*final(v)),
            old(this).value() is Some ==> old(this).value() == Some(*v) && final(this).pending()
                == old(this).pending(),
            old(this).value() is None ==> old(this).pending()->0.ensures((), *v),
            old(this).value() is None ==> final(this).pending() is None,
    {
        if this.cell.get().is_none() {
            match this.init.take() {
                Some(init) => {
                    this.cell = OnceLock::with_value(init());
                },
                None => {},
            }
        }
        match this.cell.get_mut() {
            Some(v) => v,
            None => vstd::pervasive::unreached(),
        }
    }
}

} // verus!
