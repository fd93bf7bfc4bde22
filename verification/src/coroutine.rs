//! The inside of a coroutine: assembly, suspension, termination.
//!
//! A [`Coroutine`] is what the running closure sees.  It tracks, in its
//! phase, how far the coroutine side has come — a fresh assembly still
//! loading its closure, parked after the bootstrap yield, running the
//! closure body, or finished — and its operations are the only way the
//! phase ever moves.  That discipline is what makes the closure body run
//! exactly once: [`Coroutine::start_run`] is the one gate into the body,
//! it opens only from the parked phase, and no operation ever leads back
//! there.
//!
//! Assembly hands back the three parts of one coroutine: the caller keeps
//! the [`Handle`], both sides share the [`ControlLink`], and the
//! [`Coroutine`] itself travels — boxed, together with the closure — onto
//! the coroutine's own stack during the bootstrap handshake that the
//! runtime layer performs.

use crate::context::{ContextRef, JumpCommand, SwapCommand};
use crate::handle::Handle;
use crate::link::{ControlLink, Link};
use crate::protocol::{link_after, link_enabled, phase_after, phase_enabled, Op, Phase};
use crate::stack::{StackRegion, DEFAULT_STACK_SIZE};
use vstd::prelude::*;

verus! {

/// The coroutine's own side of the handshake.
pub struct Coroutine {
    phase: Phase,
}

impl View for Coroutine {
    type V = Phase;

    closed spec fn view(&self) -> Phase {
        self.phase
    }
}

/// What assembling a coroutine hands back: a handle owning a stack block of
/// the given geometry, a fresh link, and a coroutine side that has not yet
/// moved out of the constructor's frame.
pub open spec fn assembled(
    r: (Handle, ControlLink, Coroutine),
    base: usize,
    size: usize,
    ctx: ContextRef,
) -> bool {
    &&& r.0.stack == (StackRegion { base, size })
    &&& r.0.coro_ctx == ctx
    &&& r.1@ == Link::Ready
    &&& r.2@ == Phase::Loading
}

/// Round trip of the default stack size: asking for no particular size is
/// the same as asking for 512 KiB.  An assembly with the default size is an
/// assembly with `512 * 1024` bytes, and the other way round, whatever the
/// rest of the inputs.
pub proof fn lemma_default_size_round_trip(
    r: (Handle, ControlLink, Coroutine),
    base: usize,
    ctx: ContextRef,
)
    ensures
        assembled(r, base, DEFAULT_STACK_SIZE, ctx) <==> assembled(r, base, (512 * 1024) as usize, ctx),
{
}

impl Coroutine {
    /// Assemble a fresh coroutine with the default stack size.  Behaves
    /// exactly as [`Coroutine::new_with_stack_size`] given
    /// [`DEFAULT_STACK_SIZE`].
    ///
    /// `stack_base` is the address of the freshly allocated stack block and
    /// `coro_ctx` names the slot in which the runtime layer keeps the
    /// coroutine's context; both come from the runtime layer, which treats
    /// a failed allocation as fatal before ever reaching this point.
    pub fn new(stack_base: usize, coro_ctx: ContextRef) -> (r: (Handle, ControlLink, Coroutine))
        requires
            stack_base != 0,
        ensures
            assembled(r, stack_base, DEFAULT_STACK_SIZE, coro_ctx),
    {
        Self::new_with_stack_size(stack_base, DEFAULT_STACK_SIZE, coro_ctx)
    }

    /// Assemble a fresh coroutine with a caller-chosen stack size.
    pub fn new_with_stack_size(stack_base: usize, stack_size: usize, coro_ctx: ContextRef) -> (r: (
        Handle,
        ControlLink,
        Coroutine,
    ))
        requires
            stack_base != 0,
        ensures
            assembled(r, stack_base, stack_size, coro_ctx),
    {
        let stack = StackRegion::new(stack_base, stack_size);
        let handle = Handle { stack, coro_ctx };
        let link = ControlLink::new();
        let coro = Coroutine { phase: Phase::Loading };
        (handle, link, coro)
    }

    /// Where the coroutine side currently stands.
    pub fn phase(&self) -> (p: Phase)
        ensures
            p == self@,
    {
        self.phase
    }

    /// Give control back to whoever switched in.
    ///
    /// The link must read `Called` — somebody must be owed a return; giving
    /// control back with nobody waiting has no valid target and is kept
    /// impossible rather than handled.  The link returns to `Ready`, and the
    /// switch order saves the coroutine's context into the slot the resume
    /// named and jumps to the resume's own snapshot: control lands exactly
    /// where the active `yield_in` left off.
    ///
    /// The first call is the bootstrap yield performed by the trampoline,
    /// which moves the phase from loading to parked; every later call is a
    /// suspension of the running closure body.
    pub fn yield_back(&mut self, link: &mut ControlLink) -> (cmd: SwapCommand)
        requires
            old(link)@ is Called,
            old(self)@ is Loading || old(self)@ is Running,
        ensures
            final(link)@ == Link::Ready,
            old(link)@ matches Link::Called { save_into, return_to } ==> cmd == (SwapCommand {
                save_into,
                jump_to: return_to,
            }),
            final(self)@ == (if old(self)@ is Loading {
                Phase::Parked
            } else {
                old(self)@
            }),
            link_enabled(old(link)@, Op::YieldBack),
            phase_enabled(old(self)@, Op::YieldBack),
            final(link)@ == link_after(old(link)@, Op::YieldBack),
            final(self)@ == phase_after(old(self)@, Op::YieldBack),
    {
        self.phase = match self.phase {
            Phase::Loading => Phase::Parked,
            _ => self.phase,
        };
        let prev = link.replace(Link::Ready);
        match prev {
            Link::Called { save_into, return_to } => SwapCommand { save_into, jump_to: return_to },
            _ => unreached(),
        }
    }

    /// The one gate into the closure body.
    ///
    /// The trampoline passes through here exactly once, right before it
    /// invokes the closure: only a parked coroutine may start, and nothing
    /// ever parks a coroutine again.
    pub fn start_run(&mut self)
        requires
            old(self)@ is Parked,
        ensures
            final(self)@ == Phase::Running,
            phase_enabled(old(self)@, Op::StartRun),
            final(self)@ == phase_after(old(self)@, Op::StartRun),
    {
        self.phase = Phase::Running;
    }

    /// The closure body has returned: shut the link for good and order the
    /// final switch out.
    ///
    /// The link must read `Called` — termination happens inside the resume
    /// that ran the closure to its end, so that resume's snapshot is the
    /// place control goes.  The link becomes `Terminated` and never changes
    /// again; the switch order names no slot to save into, because the
    /// coroutine's stack is about to die and must never be re-entered.
    pub fn terminate(&mut self, link: &mut ControlLink) -> (cmd: JumpCommand)
        requires
            old(link)@ is Called,
            old(self)@ is Running,
        ensures
            final(link)@ == Link::Terminated,
            final(self)@ == Phase::Finished,
            old(link)@ matches Link::Called { return_to, .. } ==> cmd == (JumpCommand {
                jump_to: return_to,
            }),
            link_enabled(old(link)@, Op::Terminate),
            phase_enabled(old(self)@, Op::Terminate),
            final(link)@ == link_after(old(link)@, Op::Terminate),
            final(self)@ == phase_after(old(self)@, Op::Terminate),
    {
        self.phase = Phase::Finished;
        let prev = link.replace(Link::Terminated);
        match prev {
            Link::Called { save_into: _, return_to } => JumpCommand { jump_to: return_to },
            _ => unreached(),
        }
    }
}

} // verus!
