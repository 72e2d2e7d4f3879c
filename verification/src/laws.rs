//! Laws the library states of itself, proved from the public contracts:
//! handle identity, progress of the thread poller, and the re-raising
//! failure path of success-only continuations.

use vstd::prelude::*;

use crate::callback::{
    continue_err_post, sequence_step_post, AnyCallback, AnyContinuation, CallbackReturn,
    ErrAction, Error,
};
use crate::heap::Heap;
use crate::value::Value;

verus! {

/// Equality of opaque callable handles is reference identity: two handles
/// are equal exactly when they carry the same allocation address (the value
/// `as_ptr` reports), and equality is reflexive and symmetric. Handles
/// constructed from identical captured state are still unequal unless they
/// are the same allocation.
pub proof fn lemma_handle_equality_is_identity(a: AnyCallback, b: AnyCallback)
    ensures
        (a == b) <==> (a.0 == b.0),
        a == a,
        (a == b) <==> (b == a),
{
}

/// Construction is fresh: a handle allocated on a heap carries that heap's
/// next address, and the heap only grows, so a handle constructed later —
/// however equal its captured state — is unequal to every handle
/// constructed before.
pub proof fn lemma_constructions_distinct(h0: Heap, h1: Heap, a: AnyCallback, b: AnyCallback)
    requires
        a.0 == h0.callbacks@.len(),
        h1.callbacks@.len() > h0.callbacks@.len(),
        b.0 == h1.callbacks@.len(),
    ensures
        a != b,
{
}

/// The thread poller makes progress: when a step reports "not done yet",
/// the very next step is terminal — it delivers the thread's result and
/// yields the terminal `Return` outcome. A step object is therefore stepped
/// at most twice per resume, and is never to be stepped again once a step
/// has yielded a terminal outcome or failed.
pub proof fn lemma_sequence_step_terminal(
    h0: Heap,
    s0: Seq<Value>,
    h1: Heap,
    s1: Seq<Value>,
    h2: Heap,
    s2: Seq<Value>,
    r2: Result<Option<CallbackReturn>, Error>,
)
    requires
        s0.len() > 0,
        sequence_step_post(h0, s0, h1, s1, Ok::<Option<CallbackReturn>, Error>(None)),
        sequence_step_post(h1, s1, h2, s2, r2),
    ensures
        r2 == Ok::<Option<CallbackReturn>, Error>(Some(CallbackReturn::Return)),
{
}

/// A continuation built from a success behavior alone does not intercept
/// errors: invoked on the failure path, it returns exactly the original
/// error, unchanged, and leaves the stack as it was.
pub proof fn lemma_ok_only_continuation_reraises(
    c: AnyContinuation,
    s0: Seq<Value>,
    s1: Seq<Value>,
    error: Error,
    r: Result<CallbackReturn, Error>,
)
    requires
        c.on_err == ErrAction::Reraise,
        continue_err_post(c, s0, s1, error, r),
    ensures
        r == Err::<CallbackReturn, Error>(error),
        s1 == s0,
{
}

} // verus!
