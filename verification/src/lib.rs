//! Suspendable-computation core of an embeddable scripting runtime.
//!
//! The library models the machinery by which host-implemented functions are
//! exposed as callable values inside a garbage-collected virtual machine, and
//! by which long-running native operations — most importantly cooperative
//! coroutines — pause and resume without using the host's call stack:
//!
//! - [`callback::CallbackReturn`]: the tagged outcome a native call hands back
//!   to the VM dispatch loop;
//! - [`callback::AnySequence`]: a stateful step object for operations that
//!   span several VM turns;
//! - [`callback::AnyContinuation`]: deferred follow-up logic with separate
//!   success and failure resumption paths;
//! - [`callback::AnyCallback`]: an opaque, identity-bearing handle to a native
//!   function plus its captured state;
//! - [`coroutine`]: the `create` / `resume` / `status` / `yield` facility
//!   built on top of the protocol types.
//!
//! Heap allocation is modelled by [`heap::Heap`], an arena whose indices stand
//! for the addresses of the collected heap: a handle's identity is the address
//! of its backing allocation, and two handles are equal exactly when they
//! reference the same allocation.

pub mod callback;
pub mod coroutine;
pub mod heap;
pub mod laws;
pub mod value;
