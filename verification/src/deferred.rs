//! A value that is built on first use, once.

use vstd::prelude::*;

verus! {

/// A value together with the function that builds it. The function runs on
/// the first call of [`Deferred::get_or_init`] and never again; every call
/// gives the value that this one run built. Callers on several threads share
/// it behind a lock, which makes them take turns.
#[verifier::reject_recursive_types(T)]
#[verifier::reject_recursive_types(F)]
pub struct Deferred<T, F: FnOnce() -> T> {
    value: Option<T>,
    init: Option<F>,
}

impl<T, F: FnOnce() -> T> Deferred<T, F> {
    /// The value is there, or the function that builds it is and may be
    /// called.
    pub closed spec fn wf(&self) -> bool {
        self.value is None ==> self.init is Some && self.init.unwrap().requires(())
    }

    /// The value, once it has been built.
    pub closed spec fn value(&self) -> Option<T> {
        self.value
    }

    /// The function that builds the value, until it has run.
    pub closed spec fn pending(&self) -> Option<F> {
        if self.value is None {
            self.init
        } else {
            None
        }
    }

    /// Wraps `init` without running it.
    pub fn new(init: F) -> (deferred: Self)
        requires
            init.requires(()),
        ensures
            deferred.wf(),
            deferred.value() is None,
            deferred.pending() == Some(init),
    {
        Deferred { value: None, init: Some(init) }
    }

    /// Whether the value has been built.
    pub fn is_initialized(&self) -> (built: bool)
        ensures
            built == self.value() is Some,
    {
        self.value.is_some()
    }

    /// The value. The first call builds it; later calls give the same one
    /// and run nothing.
    pub fn get_or_init(&mut self) -> (value: &T)
        requires
            old(self).wf(),
        ensures
            final(self).wf(),
            final(self).value() == Some(*value),
            final(self).pending() is None,
            match old(self).value() {
                Some(built) => *value == built,
                None => old(self).pending() is Some && old(self).pending().unwrap().ensures(
                    (),
                    *value,
                ),
            },
    {
        if self.value.is_none() {
            let mut init: Option<F> = None;
            core::mem::swap(&mut self.init, &mut init);
            let build = init.unwrap();
            let mut built = Some(build());
            core::mem::swap(&mut self.value, &mut built);
        }
        self.value.as_ref().unwrap()
    }
}

} // verus!
