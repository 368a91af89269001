//! The container of one closure. Nothing outside this file reaches the
//! closure while a state owns it, so the one way to run it is `invoke`, and
//! every run is counted.

use vstd::prelude::*;

verus! {

/// The container that owns exactly one closure on behalf of one menu item,
/// and knows how many times it ran it.
pub struct CallbackState<F> {
    cb: F,
    runs: Ghost<nat>,
}

impl<F> CallbackState<F> {
    /// The closure that this state owns.
    pub closed spec fn closure(&self) -> F {
        self.cb
    }

    /// How many times the state ran its closure.
    pub closed spec fn runs(&self) -> nat {
        self.runs@
    }
}

impl<F: FnMut() -> ()> CallbackState<F> {
    /// Whether the owned closure may be called with no arguments.
    pub open spec fn callable(&self) -> bool {
        call_requires(self.closure(), ())
    }

    /// Whether a call of the owned closure with no arguments may have
    /// returned: what the closure promises of such a call holds.
    pub open spec fn ran(&self) -> bool {
        call_ensures(self.closure(), (), ())
    }

    /// Takes exclusive ownership of `cb`. The closure has not run.
    pub fn new(cb: F) -> (state: Self)
        ensures
            state.closure() == cb,
            state.runs() == 0,
    {
        CallbackState { cb, runs: Ghost(0) }
    }

    /// Runs the closure exactly once: on return, what the closure promises of
    /// a call holds and one more run is counted. The state keeps owning the
    /// same closure, so it can be invoked again.
    pub fn invoke(&mut self)
        requires
            old(self).callable(),
        ensures
            old(self).ran(),
            final(self).closure() == old(self).closure(),
            final(self).runs() == old(self).runs() + 1,
    {
        (self.cb)();
        self.runs = Ghost(self.runs@ + 1);
    }

    /// Gives the closure back to the caller and ends the state.
    pub fn into_closure(self) -> (cb: F)
        ensures
            cb == self.closure(),
    {
        self.cb
    }
}

} // verus!
