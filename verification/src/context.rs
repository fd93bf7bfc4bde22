//! Names for native execution contexts and for the switch orders that the
//! unverified runtime layer carries out.
//!
//! A native context is a saved CPU-and-stack snapshot.  The verified core
//! never looks inside one; all it ever does is record *which* snapshot
//! control must return to, so an address-sized token is enough.  The runtime
//! layer picks the token values (typically the address of the slot holding
//! the snapshot) and resolves them again when it performs a switch.

use vstd::prelude::*;

verus! {

/// A token naming one native context snapshot held by the runtime layer.
#[derive(Clone, Copy, PartialEq, Eq, Structural, Debug)]
pub struct ContextRef {
    /// Identifier chosen by the runtime layer for the slot holding the
    /// snapshot.
    pub id: usize,
}

/// An order to the runtime layer: save the currently running context into
/// the slot named `save_into`, then resume execution at `jump_to`.  Control
/// comes back when some later switch names `save_into` as its target.
#[derive(Clone, Copy, PartialEq, Eq, Structural, Debug)]
pub struct SwapCommand {
    pub save_into: ContextRef,
    pub jump_to: ContextRef,
}

/// An order to the runtime layer: abandon the currently running context for
/// good and resume execution at `jump_to`.  Nothing is saved; the stack being
/// left must never be switched into again.
#[derive(Clone, Copy, PartialEq, Eq, Structural, Debug)]
pub struct JumpCommand {
    pub jump_to: ContextRef,
}

} // verus!
