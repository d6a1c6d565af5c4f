//! The slot that holds the callback of one kind.

use vstd::prelude::*;

verus! {

/// The registration point of one kind of callback. It holds the callback
/// that was registered last, or none. `F` is the host's function pointer.
pub struct CallbackSlot<F> {
    pub current: Option<F>,
}

impl<F: Copy> CallbackSlot<F> {
    /// The slot with which a process starts: nothing is registered.
    pub open spec fn empty() -> Self {
        CallbackSlot { current: None }
    }

    /// The slot after `callback` was registered: whatever was there before
    /// is replaced, by nothing where `callback` is `None`.
    pub open spec fn registered(self, callback: Option<F>) -> Self {
        CallbackSlot { current: callback }
    }

    /// A slot in which nothing is registered.
    pub fn new() -> (slot: Self)
        ensures
            slot == Self::empty(),
    {
        CallbackSlot { current: None }
    }

    /// Replaces what is registered by `callback`; `None` unregisters.
    pub fn register(&mut self, callback: Option<F>)
        ensures
            *final(self) == old(self).registered(callback),
    {
        self.current = callback;
    }

    /// A copy of the callback that is registered now.
    pub fn get(&self) -> (callback: Option<F>)
        ensures
            callback == self.current,
    {
        self.current
    }
}

} // verus!
