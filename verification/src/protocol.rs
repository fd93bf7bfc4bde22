//! The abstract handshake machine.
//!
//! The executable operations in [`crate::handle`] and [`crate::coroutine`]
//! each move one piece of the shared state; this module gives the handshake
//! as a whole as a small transition system, so that properties of entire
//! runs — the closure body starting exactly once, termination being final,
//! two coroutines never touching each other — can be stated and proved once,
//! over every possible interleaving, instead of per call site.
//!
//! A state of the machine is a [`Session`]: the rendezvous [`Link`] together
//! with the coroutine side's [`Phase`].  An [`Op`] is one atomic action of
//! the handshake.  The executable operations promise, in their contracts,
//! that they move the state exactly as [`link_after`] and [`phase_after`]
//! say, so the lemmas here apply to real call sequences.

use crate::context::ContextRef;
use crate::link::Link;
use vstd::prelude::*;

verus! {

/// How far the coroutine side of a session has come.
#[derive(Clone, Copy, PartialEq, Eq, Structural, Debug)]
pub enum Phase {
    /// The closure still sits in the constructor's transient heap slot; the
    /// trampoline has not yet moved it onto the coroutine's own stack.
    Loading,
    /// The bootstrap yield is done: closure and coroutine state live on the
    /// coroutine's own stack, and the closure body has not started.
    Parked,
    /// The closure body has started; it may be running or suspended.
    Running,
    /// The closure body has returned.  Final.
    Finished,
}

/// One atomic action of the handshake.
pub enum Op {
    /// The handle side switches in, recording where control must come back.
    Resume { save_into: ContextRef, return_to: ContextRef },
    /// The coroutine side gives control back to whoever switched in; the
    /// first time this is the bootstrap yield, afterwards a suspension of
    /// the closure body.
    YieldBack,
    /// The trampoline hands the closure body its one invocation.
    StartRun,
    /// The closure body has returned; the coroutine side shuts the link for
    /// good and leaves its stack forever.
    Terminate,
}

/// When the link permits an action.
pub open spec fn link_enabled(l: Link, op: Op) -> bool {
    match op {
        Op::Resume { .. } => !(l is Called),
        Op::YieldBack => l is Called,
        Op::StartRun => true,
        Op::Terminate => l is Called,
    }
}

/// What an action leaves in the link.  A resume of a terminated coroutine is
/// the one refused-but-recoverable action: it reports an error and changes
/// nothing.
pub open spec fn link_after(l: Link, op: Op) -> Link {
    match op {
        Op::Resume { save_into, return_to } => if l is Terminated {
            l
        } else {
            Link::Called { save_into, return_to }
        },
        Op::YieldBack => Link::Ready,
        Op::StartRun => l,
        Op::Terminate => Link::Terminated,
    }
}

/// When the coroutine side's phase permits an action.
pub open spec fn phase_enabled(p: Phase, op: Op) -> bool {
    match op {
        Op::Resume { .. } => true,
        Op::YieldBack => p is Loading || p is Running,
        Op::StartRun => p is Parked,
        Op::Terminate => p is Running,
    }
}

/// What an action leaves as the phase.
pub open spec fn phase_after(p: Phase, op: Op) -> Phase {
    match op {
        Op::Resume { .. } => p,
        Op::YieldBack => if p is Loading {
            Phase::Parked
        } else {
            p
        },
        Op::StartRun => Phase::Running,
        Op::Terminate => Phase::Finished,
    }
}

/// The whole shared state of one coroutine, as the proofs see it.
pub struct Session {
    pub link: Link,
    pub phase: Phase,
}

/// When the session as a whole permits an action.
pub open spec fn session_enabled(s: Session, op: Op) -> bool {
    link_enabled(s.link, op) && phase_enabled(s.phase, op)
}

/// What an action leaves as the session.
pub open spec fn session_after(s: Session, op: Op) -> Session {
    Session { link: link_after(s.link, op), phase: phase_after(s.phase, op) }
}

/// The state a freshly assembled coroutine starts in.
pub open spec fn initial_session() -> Session {
    Session { link: Link::Ready, phase: Phase::Loading }
}

/// A sequence of actions is a legal trace from `s` when every action is
/// permitted in the state the previous ones produced.
pub open spec fn trace_ok(s: Session, ops: Seq<Op>) -> bool
    decreases ops.len(),
{
    ops.len() == 0 || (session_enabled(s, ops[0]) && trace_ok(session_after(s, ops[0]), ops.drop_first()))
}

/// The state a trace ends in.
pub open spec fn trace_end(s: Session, ops: Seq<Op>) -> Session
    decreases ops.len(),
{
    if ops.len() == 0 {
        s
    } else {
        trace_end(session_after(s, ops[0]), ops.drop_first())
    }
}

/// How often the closure body has been started, read off the phase.
pub open spec fn runs_of_phase(p: Phase) -> nat {
    match p {
        Phase::Loading => 0,
        Phase::Parked => 0,
        Phase::Running => 1,
        Phase::Finished => 1,
    }
}

/// Number of `StartRun` actions in a sequence.
pub open spec fn start_run_count(ops: Seq<Op>) -> nat
    decreases ops.len(),
{
    if ops.len() == 0 {
        0
    } else {
        (if ops[0] is StartRun {
            1nat
        } else {
            0nat
        }) + start_run_count(ops.drop_first())
    }
}

/// The link and the phase never drift apart: the link reads `Terminated`
/// exactly while the closure body has finished.
pub open spec fn coupled(s: Session) -> bool {
    s.link is Terminated <==> s.phase is Finished
}

/// Every legal trace preserves the coupling of link and phase; since a fresh
/// session is coupled, every reachable session is.
pub proof fn lemma_coupling_preserved(s: Session, ops: Seq<Op>)
    requires
        coupled(s),
        trace_ok(s, ops),
    ensures
        coupled(trace_end(s, ops)),
    decreases ops.len(),
{
    if ops.len() != 0 {
        lemma_coupling_preserved(session_after(s, ops[0]), ops.drop_first());
    }
}

/// Accounting for the start of the closure body: along any legal trace, the
/// run tally read off the phase grows by exactly the number of `StartRun`
/// actions taken.
pub proof fn lemma_run_accounting(s: Session, ops: Seq<Op>)
    requires
        trace_ok(s, ops),
    ensures
        runs_of_phase(trace_end(s, ops).phase) == runs_of_phase(s.phase) + start_run_count(ops),
    decreases ops.len(),
{
    if ops.len() != 0 {
        lemma_run_accounting(session_after(s, ops[0]), ops.drop_first());
    }
}

/// The closure body executes exactly once.  Along any legal trace from a
/// fresh session it is started at most once, and it has been started exactly
/// once as soon as it is running — and still exactly once when the coroutine
/// has terminated, however many suspensions lie in between.
pub proof fn lemma_exactly_once(ops: Seq<Op>)
    requires
        trace_ok(initial_session(), ops),
    ensures
        start_run_count(ops) <= 1,
        trace_end(initial_session(), ops).phase is Running ==> start_run_count(ops) == 1,
        trace_end(initial_session(), ops).phase is Finished ==> start_run_count(ops) == 1,
{
    lemma_run_accounting(initial_session(), ops);
}

/// In a terminated session the only action still permitted is a resume, and
/// that resume reports its error without moving anything.
pub proof fn lemma_terminated_only_resume(s: Session, op: Op)
    requires
        s.link is Terminated,
        s.phase is Finished,
        session_enabled(s, op),
    ensures
        op is Resume,
        session_after(s, op) == s,
{
}

/// Termination is absorbing: once the coroutine has terminated, no legal
/// trace — of whatever length — changes the session again.  In particular
/// `is_terminated` keeps answering true and every further resume keeps
/// reporting `AlreadyTerminated`, and the closure body never runs again.
pub proof fn lemma_terminated_absorbing(s: Session, ops: Seq<Op>)
    requires
        s.link is Terminated,
        s.phase is Finished,
        trace_ok(s, ops),
    ensures
        trace_end(s, ops) == s,
    decreases ops.len(),
{
    if ops.len() != 0 {
        lemma_terminated_only_resume(s, ops[0]);
        lemma_terminated_absorbing(s, ops.drop_first());
    }
}

/// Every prefix of a legal trace is itself a legal trace.  Together with
/// `lemma_terminated_absorbing` this says a terminated session is unchanged
/// not only at the end of a run but at every point along it: every query
/// keeps seeing `Terminated`, every resume keeps being refused.
pub proof fn lemma_trace_ok_prefix(s: Session, ops: Seq<Op>, n: int)
    requires
        trace_ok(s, ops),
        0 <= n <= ops.len(),
    ensures
        trace_ok(s, ops.take(n)),
    decreases ops.len(),
{
    if ops.len() != 0 && n > 0 {
        lemma_trace_ok_prefix(session_after(s, ops[0]), ops.drop_first(), n - 1);
        assert(ops.take(n).drop_first() =~= ops.drop_first().take(n - 1));
        assert(ops.take(n)[0] == ops[0]);
    }
}

/// A coroutine that is never resumed sees no protocol activity at all: from
/// a fresh session, no action other than a resume is even permitted, so a
/// trace without resumes is empty and leaves the session — and with it
/// anything the closure would have touched — exactly as assembly made it.
pub proof fn lemma_no_resume_no_steps(ops: Seq<Op>)
    requires
        trace_ok(initial_session(), ops),
        forall|i: int| 0 <= i < ops.len() ==> !((#[trigger] ops[i]) is Resume),
    ensures
        ops.len() == 0,
        trace_end(initial_session(), ops) == initial_session(),
        start_run_count(ops) == 0,
{
    if ops.len() != 0 {
        assert(!(ops[0] is Resume));
        assert(session_enabled(initial_session(), ops[0]));
        assert(false);
    }
}

/// The bootstrap handshake: from a fresh session, one switch-in followed by
/// the trampoline's yield is legal and parks the coroutine.  This is the
/// state every constructor hands its caller: the link ready for the first
/// real resume, the closure moved onto the coroutine's own stack but not
/// started.
pub proof fn lemma_bootstrap_parks(save_into: ContextRef, return_to: ContextRef)
    ensures
        trace_ok(initial_session(), seq![Op::Resume { save_into, return_to }, Op::YieldBack]),
        trace_end(initial_session(), seq![Op::Resume { save_into, return_to }, Op::YieldBack])
            == (Session { link: Link::Ready, phase: Phase::Parked }),
{
    reveal_with_fuel(trace_ok, 3);
    reveal_with_fuel(trace_end, 3);
    let ops = seq![Op::Resume { save_into, return_to }, Op::YieldBack];
    assert(ops.drop_first() =~= seq![Op::YieldBack]);
    assert(ops.drop_first().drop_first() =~= Seq::<Op>::empty());
}

/// Which of two unrelated coroutines an action is addressed to.
pub enum PairOp {
    OnFirst(Op),
    OnSecond(Op),
}

/// When a pair of sessions permits an action addressed to one of them.
pub open spec fn pair_enabled(a: Session, b: Session, op: PairOp) -> bool {
    match op {
        PairOp::OnFirst(o) => session_enabled(a, o),
        PairOp::OnSecond(o) => session_enabled(b, o),
    }
}

/// What an action addressed to one of a pair of sessions leaves behind.
pub open spec fn pair_after(a: Session, b: Session, op: PairOp) -> (Session, Session) {
    match op {
        PairOp::OnFirst(o) => (session_after(a, o), b),
        PairOp::OnSecond(o) => (a, session_after(b, o)),
    }
}

/// Two coroutines are independent: an action addressed to one is permitted
/// or refused without regard to the other's state, moves the addressed
/// session exactly as it would alone, and leaves the other session
/// untouched.
pub proof fn lemma_sessions_independent(a: Session, b: Session, o: Op)
    ensures
        pair_enabled(a, b, PairOp::OnFirst(o)) == session_enabled(a, o),
        pair_after(a, b, PairOp::OnFirst(o)).0 == session_after(a, o),
        pair_after(a, b, PairOp::OnFirst(o)).1 == b,
        pair_enabled(a, b, PairOp::OnSecond(o)) == session_enabled(b, o),
        pair_after(a, b, PairOp::OnSecond(o)).0 == a,
        pair_after(a, b, PairOp::OnSecond(o)).1 == session_after(b, o),
{
}

/// A sequence of actions on a pair of sessions is legal when each action is
/// permitted by the session it is addressed to.
pub open spec fn pair_trace_ok(a: Session, b: Session, ops: Seq<PairOp>) -> bool
    decreases ops.len(),
{
    ops.len() == 0 || {
        let next = pair_after(a, b, ops[0]);
        pair_enabled(a, b, ops[0]) && pair_trace_ok(next.0, next.1, ops.drop_first())
    }
}

/// The pair of sessions an interleaved trace ends in.
pub open spec fn pair_trace_end(a: Session, b: Session, ops: Seq<PairOp>) -> (Session, Session)
    decreases ops.len(),
{
    if ops.len() == 0 {
        (a, b)
    } else {
        let next = pair_after(a, b, ops[0]);
        pair_trace_end(next.0, next.1, ops.drop_first())
    }
}

/// The actions of an interleaved trace addressed to the first session.
pub open spec fn first_ops(ops: Seq<PairOp>) -> Seq<Op>
    decreases ops.len(),
{
    if ops.len() == 0 {
        Seq::empty()
    } else {
        match ops[0] {
            PairOp::OnFirst(o) => seq![o] + first_ops(ops.drop_first()),
            PairOp::OnSecond(_) => first_ops(ops.drop_first()),
        }
    }
}

/// The actions of an interleaved trace addressed to the second session.
pub open spec fn second_ops(ops: Seq<PairOp>) -> Seq<Op>
    decreases ops.len(),
{
    if ops.len() == 0 {
        Seq::empty()
    } else {
        match ops[0] {
            PairOp::OnFirst(_) => second_ops(ops.drop_first()),
            PairOp::OnSecond(o) => seq![o] + second_ops(ops.drop_first()),
        }
    }
}

/// Independence over whole runs: in a legal interleaved trace on two
/// coroutines, what is addressed to each is a legal trace for that
/// coroutine alone, and each coroutine ends where its own actions alone
/// take it — however the two are interleaved, neither observes the other.
pub proof fn lemma_interleaving_independent(a: Session, b: Session, ops: Seq<PairOp>)
    requires
        pair_trace_ok(a, b, ops),
    ensures
        trace_ok(a, first_ops(ops)),
        trace_ok(b, second_ops(ops)),
        pair_trace_end(a, b, ops).0 == trace_end(a, first_ops(ops)),
        pair_trace_end(a, b, ops).1 == trace_end(b, second_ops(ops)),
    decreases ops.len(),
{
    if ops.len() != 0 {
        let next = pair_after(a, b, ops[0]);
        lemma_interleaving_independent(next.0, next.1, ops.drop_first());
        match ops[0] {
            PairOp::OnFirst(o) => {
                assert((seq![o] + first_ops(ops.drop_first())).drop_first() =~= first_ops(
                    ops.drop_first(),
                ));
            },
            PairOp::OnSecond(o) => {
                assert((seq![o] + second_ops(ops.drop_first())).drop_first() =~= second_ops(
                    ops.drop_first(),
                ));
            },
        }
    }
}

} // verus!
