// Scenario tests for the coroutine handshake.  The tests play both sides of
// the protocol themselves: they perform the verified transitions in the
// order the runtime layer would, and check every observable along the way.

use coro::context::ContextRef;
use coro::coroutine::Coroutine;
use coro::handle::{AlreadyTerminated, RunState};
use coro::link::Link;
use coro::stack::DEFAULT_STACK_SIZE;

// The classic interleaving: the caller stores 1 and resumes; the closure
// sees 1, stores 2 and yields; the caller sees 2, stores 3 and resumes; the
// closure sees 3, stores 4 and returns; the caller sees 4 and finds the
// coroutine terminated.
#[test]
fn sequencing_in_prescribed_order() {
    let (mut handle, mut link, mut coro) = Coroutine::new(0x1000, ContextRef { id: 7 });
    let mut seq: usize = 0;

    // Bootstrap handshake, performed by the constructor in the runtime
    // layer: one switch in, one yield back, no closure code.
    let cmd = handle.yield_in(&mut link, ContextRef { id: 90 }).unwrap();
    assert_eq!(cmd.jump_to, ContextRef { id: 7 });
    let back = coro.yield_back(&mut link);
    assert_eq!(back.jump_to, ContextRef { id: 90 });
    assert_eq!(handle.run_state(&link), RunState::StillRunning);

    assert_eq!(seq, 0);
    assert!(!handle.is_terminated(&link));
    seq = 1;

    // First resume: control enters the trampoline, which starts the closure.
    let cmd = handle.yield_in(&mut link, ContextRef { id: 91 }).unwrap();
    assert_eq!(cmd.jump_to, ContextRef { id: 7 });
    coro.start_run();
    // ... closure body, first stretch ...
    assert_eq!(seq, 1);
    seq = 2;
    let back = coro.yield_back(&mut link);
    assert_eq!(back.jump_to, ContextRef { id: 91 });
    assert_eq!(handle.run_state(&link), RunState::StillRunning);

    // Caller between the two resumes.
    assert_eq!(seq, 2);
    assert!(!handle.is_terminated(&link));
    seq = 3;

    // Second resume: the closure runs to its end.
    let cmd = handle.yield_in(&mut link, ContextRef { id: 92 }).unwrap();
    assert_eq!(cmd.jump_to, ContextRef { id: 7 });
    // ... closure body, second stretch ...
    assert_eq!(seq, 3);
    seq = 4;
    let fin = coro.terminate(&mut link);
    assert_eq!(fin.jump_to, ContextRef { id: 92 });
    assert_eq!(handle.run_state(&link), RunState::Terminated);

    assert_eq!(seq, 4);
    assert!(handle.is_terminated(&link));
}

// Creating a coroutine and never resuming it runs nothing: the closure's
// would-be effect never happens and the link never leaves Ready.
#[test]
fn never_resumed_runs_nothing() {
    let seq: usize = 0;
    {
        let (handle, link, _coro) = Coroutine::new(0x2000, ContextRef { id: 1 });
        // never resumed; dropping all three parts is safe
        assert!(!handle.is_terminated(&link));
        assert_eq!(link.read(), Link::Ready);
    }
    assert_eq!(seq, 0);
}

// Once terminated, the coroutine stays terminated: the query keeps answering
// true and every further resume reports AlreadyTerminated without running
// anything.
#[test]
fn termination_is_final() {
    let (mut handle, mut link, mut coro) = Coroutine::new(0x3000, ContextRef { id: 2 });
    let mut body_entries: usize = 0;

    handle.yield_in(&mut link, ContextRef { id: 80 }).unwrap();
    coro.yield_back(&mut link);

    handle.yield_in(&mut link, ContextRef { id: 81 }).unwrap();
    coro.start_run();
    body_entries += 1;
    coro.terminate(&mut link);
    assert_eq!(handle.run_state(&link), RunState::Terminated);

    for attempt in 0..3usize {
        assert!(handle.is_terminated(&link));
        let refused = handle.yield_in(&mut link, ContextRef { id: 82 + attempt });
        assert_eq!(refused, Err(AlreadyTerminated));
        assert_eq!(link.read(), Link::Terminated);
    }
    assert_eq!(body_entries, 1);
}

// Two coroutines from two closures share nothing: driving one through its
// whole life leaves every observable of the other exactly as it was.
#[test]
fn handles_are_independent() {
    let (mut handle_a, mut link_a, mut coro_a) = Coroutine::new(0x4000, ContextRef { id: 10 });
    let (handle_b, link_b, _coro_b) = Coroutine::new(0x5000, ContextRef { id: 20 });

    handle_a.yield_in(&mut link_a, ContextRef { id: 70 }).unwrap();
    coro_a.yield_back(&mut link_a);
    handle_a.yield_in(&mut link_a, ContextRef { id: 71 }).unwrap();
    coro_a.start_run();
    coro_a.terminate(&mut link_a);

    assert!(handle_a.is_terminated(&link_a));
    assert!(!handle_b.is_terminated(&link_b));
    assert_eq!(link_b.read(), Link::Ready);
    assert_eq!(handle_b.coro_ctx, ContextRef { id: 20 });
    assert_eq!(handle_b.stack.base, 0x5000);
}

// However many times the closure suspends, its body is started exactly once
// over the whole life of the coroutine.
#[test]
fn body_starts_exactly_once() {
    let (mut handle, mut link, mut coro) = Coroutine::new(0x6000, ContextRef { id: 3 });
    let mut starts: usize = 0;

    handle.yield_in(&mut link, ContextRef { id: 60 }).unwrap();
    coro.yield_back(&mut link);

    handle.yield_in(&mut link, ContextRef { id: 61 }).unwrap();
    coro.start_run();
    starts += 1;
    coro.yield_back(&mut link);

    handle.yield_in(&mut link, ContextRef { id: 62 }).unwrap();
    coro.yield_back(&mut link);

    handle.yield_in(&mut link, ContextRef { id: 63 }).unwrap();
    coro.yield_back(&mut link);

    handle.yield_in(&mut link, ContextRef { id: 64 }).unwrap();
    coro.terminate(&mut link);

    assert!(handle.is_terminated(&link));
    assert_eq!(starts, 1);
}

// Leaving the stack size unspecified is the same as asking for 512 KiB.
#[test]
fn default_stack_size_round_trip() {
    assert_eq!(DEFAULT_STACK_SIZE, 512 * 1024);

    let (handle_dflt, mut link_dflt, mut coro_dflt) = Coroutine::new(0x7000, ContextRef { id: 4 });
    let (handle_expl, mut link_expl, mut coro_expl) =
        Coroutine::new_with_stack_size(0x7000, 512 * 1024, ContextRef { id: 4 });

    assert_eq!(handle_dflt.stack, handle_expl.stack);
    assert_eq!(handle_dflt.coro_ctx, handle_expl.coro_ctx);
    assert_eq!(link_dflt.read(), link_expl.read());

    // and they behave identically step for step
    let mut handle_dflt = handle_dflt;
    let mut handle_expl = handle_expl;
    let cmd_d = handle_dflt.yield_in(&mut link_dflt, ContextRef { id: 50 }).unwrap();
    let cmd_e = handle_expl.yield_in(&mut link_expl, ContextRef { id: 50 }).unwrap();
    assert_eq!(cmd_d, cmd_e);
    let back_d = coro_dflt.yield_back(&mut link_dflt);
    let back_e = coro_expl.yield_back(&mut link_expl);
    assert_eq!(back_d, back_e);
    assert_eq!(link_dflt.read(), link_expl.read());
}
