//! Geometry of the raw memory block serving as a coroutine's stack.
//!
//! The block itself is procured page-aligned and later released by the
//! unverified runtime layer; a failed allocation is fatal there and never
//! reaches the core.  The core records the block's geometry and keeps it
//! inside the [`crate::handle::Handle`], so that ownership of the block
//! follows ownership of the coroutine and the block is given up exactly once.

use vstd::prelude::*;

verus! {

/// Number of bytes given to a coroutine stack when the caller does not pick
/// a size of its own.
pub const DEFAULT_STACK_SIZE: usize = 512 * 1024;

/// One fixed-size block of raw memory used as a coroutine's stack.
///
/// The core never reads or writes through the block; it is only ever
/// installed into a native context by the runtime layer.
#[derive(Clone, Copy, PartialEq, Eq, Structural, Debug)]
pub struct StackRegion {
    /// Address of the lowest byte of the block.  Never zero: a null
    /// allocation is rejected before a region is ever recorded.
    pub base: usize,
    /// Size of the block in bytes, fixed at creation and never resized.
    pub size: usize,
}

impl StackRegion {
    /// A region is well formed when it records a real allocation.
    pub open spec fn wf(&self) -> bool {
        self.base != 0
    }

    /// Record a freshly allocated block.
    pub fn new(base: usize, size: usize) -> (r: StackRegion)
        requires
            base != 0,
        ensures
            r == (StackRegion { base, size }),
            r.wf(),
    {
        StackRegion { base, size }
    }
}

} // verus!
