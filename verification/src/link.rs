//! The rendezvous link: the one piece of state shared by the two sides of a
//! coroutine.
//!
//! At any instant exactly one side is running, and with it goes the right to
//! flip the link.  The link is therefore a single-slot cell whose only
//! mutation is take-and-replace: the running side swaps a new value in and
//! inspects what it took out.  The value says, at every moment, whether the
//! coroutine is idle, whether somebody has switched in and is owed a return,
//! or whether the coroutine has finished for good.

use crate::context::ContextRef;
use vstd::prelude::*;

verus! {

/// The state carried by the rendezvous link.
#[derive(Clone, Copy, PartialEq, Eq, Structural, Debug)]
pub enum Link {
    /// The coroutine is not currently switched into; no return is owed.
    Ready,
    /// One side has transferred control to the other and recorded where
    /// control must go when the coroutine next gives it up.
    Called {
        /// Slot into which the coroutine's own context is to be saved when
        /// it suspends, so that a later resume finds it there.
        save_into: ContextRef,
        /// Snapshot of the caller that switched in; where control returns.
        return_to: ContextRef,
    },
    /// The coroutine's closure has returned.  This state is never left again
    /// and the coroutine's stack is never switched into again.
    Terminated,
}

/// A single-slot rendezvous cell holding a [`Link`].
///
/// Keeping the cell opaque, with take-and-replace as its only mutation,
/// keeps the one-owner-at-a-time discipline of the handshake visible in the
/// type rather than a matter of convention.
pub struct ControlLink {
    state: Link,
}

impl View for ControlLink {
    type V = Link;

    closed spec fn view(&self) -> Link {
        self.state
    }
}

impl ControlLink {
    /// A fresh link: the coroutine has not been switched into.
    pub fn new() -> (r: ControlLink)
        ensures
            r@ == Link::Ready,
    {
        ControlLink { state: Link::Ready }
    }

    /// Swap `next` into the cell and hand back what was there.
    pub fn replace(&mut self, next: Link) -> (prev: Link)
        ensures
            final(self)@ == next,
            prev == old(self)@,
    {
        let prev = self.state;
        self.state = next;
        prev
    }

    /// Look at the current value without disturbing it.
    pub fn read(&self) -> (r: Link)
        ensures
            r == self@,
    {
        self.state
    }
}

} // verus!
