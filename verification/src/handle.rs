//! The outside of a coroutine: the caller-owned [`Handle`].
//!
//! A handle owns the coroutine's stack block and knows the slot holding the
//! coroutine's saved context.  Resuming is asymmetric and happens in two
//! steps around one native switch: [`Handle::yield_in`] decides whether the
//! switch may happen and records in the link where control must come back;
//! after the runtime layer has performed the switch and control has
//! returned, [`Handle::run_state`] reads off whether the coroutine merely
//! suspended or finished for good.

use crate::context::{ContextRef, SwapCommand};
use crate::link::{ControlLink, Link};
use crate::protocol::{link_after, link_enabled, Op};
use crate::stack::StackRegion;
use vstd::prelude::*;

verus! {

/// The caller's side of one coroutine.
///
/// The handle owns the stack block and names the slot in which the
/// coroutine's context sleeps between resumes.  Taking `&mut self` on
/// [`Handle::yield_in`] makes a second resume during an active one
/// impossible by ownership alone.
///
/// Giving a handle up is always safe when its coroutine was never resumed
/// or has terminated.  Abandoning one whose coroutine is suspended
/// mid-body leaks whatever the closure keeps on the coroutine's stack:
/// that stack is never re-entered, so nothing on it is ever dropped.
pub struct Handle {
    /// The coroutine's stack block; released only when the handle is given
    /// up.
    pub stack: StackRegion,
    /// Slot holding the coroutine's saved context while it is suspended.
    pub coro_ctx: ContextRef,
}

/// The one recoverable error of the whole subsystem: resuming a coroutine
/// whose closure has already returned.
#[derive(Clone, Copy, PartialEq, Eq, Structural, Debug)]
pub struct AlreadyTerminated;

/// What a completed resume observed.
#[derive(Clone, Copy, PartialEq, Eq, Structural, Debug)]
pub enum RunState {
    /// The coroutine suspended; it may be resumed again.
    StillRunning,
    /// The coroutine's closure returned during this resume.
    Terminated,
}

impl Handle {
    /// Whether the coroutine has finished for good.  A pure query; never
    /// blocks, never changes anything.
    pub fn is_terminated(&self, link: &ControlLink) -> (r: bool)
        ensures
            r == (link@ is Terminated),
    {
        match link.read() {
            Link::Terminated => true,
            _ => false,
        }
    }

    /// First half of a resume.
    ///
    /// Refuses with [`AlreadyTerminated`], touching nothing, if the
    /// coroutine has finished.  Otherwise records in the link that control
    /// must return to `return_to` — the caller's own snapshot, taken just
    /// now — and that the coroutine's context is to be saved back into this
    /// handle's slot, and orders the switch into the coroutine.  The link
    /// may not read `Called`: that would mean a resume is already active,
    /// which ownership of the handle rules out.
    pub fn yield_in(&mut self, link: &mut ControlLink, return_to: ContextRef) -> (r: Result<
        SwapCommand,
        AlreadyTerminated,
    >)
        requires
            !(old(link)@ is Called),
        ensures
            *final(self) == *old(self),
            r is Err <==> old(link)@ is Terminated,
            old(link)@ is Terminated ==> final(link)@ == old(link)@,
            old(link)@ is Ready ==> (r matches Ok(cmd) && cmd == (SwapCommand {
                save_into: return_to,
                jump_to: old(self).coro_ctx,
            }) && final(link)@ == (Link::Called {
                save_into: old(self).coro_ctx,
                return_to,
            })),
            link_enabled(
                old(link)@,
                (Op::Resume { save_into: old(self).coro_ctx, return_to }),
            ),
            final(link)@ == link_after(
                old(link)@,
                (Op::Resume { save_into: old(self).coro_ctx, return_to }),
            ),
    {
        if self.is_terminated(link) {
            return Err(AlreadyTerminated);
        }
        let _prev = link.replace(Link::Called { save_into: self.coro_ctx, return_to });
        Ok(SwapCommand { save_into: return_to, jump_to: self.coro_ctx })
    }

    /// Second half of a resume: once control has come back, say whether the
    /// coroutine merely suspended or terminated during this resume.
    pub fn run_state(&self, link: &ControlLink) -> (r: RunState)
        ensures
            r == (if link@ is Terminated {
                RunState::Terminated
            } else {
                RunState::StillRunning
            }),
    {
        if self.is_terminated(link) {
            RunState::Terminated
        } else {
            RunState::StillRunning
        }
    }
}

} // verus!
