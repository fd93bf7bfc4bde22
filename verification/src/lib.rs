//! A stackful coroutine (fiber) primitive, verified at its core.
//!
//! A coroutine owns a stack of its own; a caller switches into it with
//! `Handle::yield_in` and the coroutine hands control back with
//! `Coroutine::yield_back`, any number of times, until its closure returns.
//! The raw context switching and the page allocation are native capabilities
//! that no verifier can look into; they live in a thin unverified runtime
//! layer.  Everything that can go wrong *above* that boundary — switching to
//! the wrong snapshot, re-entering a finished coroutine, running the closure
//! twice, losing track of where control must return — is governed here, by
//! the rendezvous link and the phase discipline, and proved.
//!
//! The split of duties:
//! - [`link`] holds the single-slot rendezvous cell shared by the two sides
//!   of one coroutine and its three-state value.
//! - [`context`] names the native context snapshots and the switch orders the
//!   runtime layer carries out.
//! - [`stack`] records the geometry of the coroutine's stack block.
//! - [`coroutine`] is the inside of a coroutine: assembly, suspension,
//!   termination.
//! - [`handle`] is the outside: resuming and asking whether it finished.
//! - [`protocol`] is the abstract handshake machine the proofs speak of, with
//!   the laws of the protocol.

pub mod context;
pub mod coroutine;
pub mod handle;
pub mod link;
pub mod protocol;
pub mod stack;

pub use crate::coroutine::Coroutine;
pub use crate::handle::Handle;
