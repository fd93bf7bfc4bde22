// Unit tests for the individual parts: the rendezvous cell, the stack
// geometry, and the exact switch orders the transitions hand out.

use coro::context::{ContextRef, SwapCommand};
use coro::coroutine::Coroutine;
use coro::link::{ControlLink, Link};
use coro::stack::StackRegion;

#[test]
fn control_link_take_and_replace() {
    let mut link = ControlLink::new();
    assert_eq!(link.read(), Link::Ready);

    let called = Link::Called {
        save_into: ContextRef { id: 11 },
        return_to: ContextRef { id: 22 },
    };
    let prev = link.replace(called);
    assert_eq!(prev, Link::Ready);
    assert_eq!(link.read(), called);

    let prev = link.replace(Link::Terminated);
    assert_eq!(prev, called);
    assert_eq!(link.read(), Link::Terminated);
}

#[test]
fn stack_region_records_geometry() {
    let region = StackRegion::new(0x8000, 4096);
    assert_eq!(region, StackRegion { base: 0x8000, size: 4096 });
}

// A resume switches into the coroutine's slot while parking the caller's
// snapshot; the matching yield switches back the crossed way, saving the
// coroutine into the handle's slot.  If either side handed its argument
// through unchanged, these would fail.
#[test]
fn switch_orders_cross_correctly() {
    let (mut handle, mut link, mut coro) = Coroutine::new(0x9000, ContextRef { id: 5 });

    let caller = ContextRef { id: 40 };
    let cmd = handle.yield_in(&mut link, caller).unwrap();
    assert_eq!(cmd, SwapCommand { save_into: caller, jump_to: ContextRef { id: 5 } });
    assert_eq!(
        link.read(),
        Link::Called { save_into: ContextRef { id: 5 }, return_to: caller }
    );

    let back = coro.yield_back(&mut link);
    assert_eq!(back, SwapCommand { save_into: ContextRef { id: 5 }, jump_to: caller });
    assert_eq!(link.read(), Link::Ready);
}

#[test]
fn terminate_jumps_to_the_active_resume() {
    let (mut handle, mut link, mut coro) = Coroutine::new(0xa000, ContextRef { id: 6 });

    handle.yield_in(&mut link, ContextRef { id: 30 }).unwrap();
    coro.yield_back(&mut link);

    let caller = ContextRef { id: 31 };
    handle.yield_in(&mut link, caller).unwrap();
    coro.start_run();
    let fin = coro.terminate(&mut link);
    assert_eq!(fin.jump_to, caller);
    assert_eq!(link.read(), Link::Terminated);
}
