//! The protocol types of the suspension core: execution outcomes, stateful
//! step objects, continuations, errors, and the opaque callable handle.
//!
//! A native call hands the VM dispatch loop exactly one [`CallbackReturn`].
//! Work that spans several VM turns is expressed as an [`AnySequence`], a
//! stateful object stepped repeatedly until it yields a terminal outcome or
//! fails. Follow-up logic for a suspended chain is expressed as an
//! [`AnyContinuation`], with separate success and failure resumption paths.
//!
//! Native implementations are held in the heap and invoked uniformly through
//! [`AnyCallback`], a single address-sized handle whose identity is the
//! address of its backing allocation. Since verified code cannot erase types
//! behind a dispatch pointer, the concrete implementations form the closed
//! set [`NativeFn`]: an implementation is a behavior from that set together
//! with the values it captures, and calling a handle dispatches on the
//! behavior stored at its allocation.

use vstd::prelude::*;

use crate::coroutine::{
    coroutine_create, coroutine_create_post, coroutine_resume, coroutine_resume_post,
    coroutine_status, coroutine_status_post, coroutine_yield, coroutine_yield_post,
};
use crate::heap::{
    clone_values, push_values, step_thread_post, take_return_post, Heap, ThreadMode,
};
use crate::value::{Function, Value};

verus! {

/// A wrong argument kind was handed to a native function: the kind that was
/// expected, and the kind actually found.
#[derive(Clone, Copy, Debug, PartialEq, Eq)]
pub struct TypeError {
    pub expected: &'static str,
    pub found: &'static str,
}

/// A resumed thread was observed in a mode the resume protocol does not
/// expect: the mode that was expected, and the mode actually found.
#[derive(Clone, Copy, Debug, PartialEq, Eq, Structural)]
pub struct BadThreadMode {
    pub expected: ThreadMode,
    pub found: ThreadMode,
}

/// A failure surfaced by this core to the script.
#[derive(Clone, Copy, Debug, PartialEq, Eq)]
pub enum Error {
    /// A wrong argument kind.
    Type(TypeError),
    /// A protocol violation while polling a resumed thread.
    BadMode(BadThreadMode),
    /// A generic failure with a fixed message.
    Runtime(&'static str),
    /// An error value raised by script-level code, forwarded unchanged.
    Script(Value),
}

/// The stateful step objects this library defines. The coroutine facility
/// contributes the thread poller, which drives a resumed thread to its next
/// suspension point; it keeps its state (the thread handle) on the operand
/// stack, as the resume protocol leaves it there.
#[derive(Clone, Copy, Debug, PartialEq, Eq, Structural)]
pub enum SequenceState {
    /// Poll the thread found at the bottom of the operand stack.
    PollThread,
}

/// A stateful step object: a native operation that cannot complete in one
/// VM turn. The dispatch loop steps it repeatedly; each step either reports
/// "not done yet", yields a terminal [`CallbackReturn`], or fails.
#[derive(Clone, Debug, PartialEq, Eq)]
pub struct AnySequence {
    pub state: SequenceState,
}

/// What the success path of a continuation does with the operand stack.
#[derive(Clone, Copy, Debug, PartialEq, Eq, Structural)]
pub enum OkAction {
    /// Finish, keeping whatever the VM placed on the stack.
    FinishWithStack,
    /// Finish, replacing the stack with the captured context values.
    FinishWithContext,
}

/// What the failure path of a continuation does with the error.
#[derive(Clone, Copy, Debug, PartialEq, Eq, Structural)]
pub enum ErrAction {
    /// Re-raise the error unchanged; the common case where a native function
    /// does not want to intercept errors crossing a yield boundary.
    Reraise,
    /// Swallow the error and finish, replacing the stack with the captured
    /// context values.
    FinishWithContext,
}

/// A concrete continuation implementation: captured context values plus
/// the two resumption behaviors invoked on them.
#[derive(Clone, Debug, PartialEq, Eq)]
pub struct NativeContinuation {
    pub context: Vec<Value>,
    pub on_ok: OkAction,
    pub on_err: ErrAction,
}

/// Deferred follow-up logic for a suspended chain: a pair of resumption
/// behaviors over captured context values, invoked by the VM when the
/// suspended computation later produces a result or a failure.
#[derive(Clone, Debug, PartialEq, Eq)]
pub struct AnyContinuation {
    pub context: Vec<Value>,
    pub on_ok: OkAction,
    pub on_err: ErrAction,
}

/// What the VM dispatch loop must do after a native operation step: exactly
/// one of these, per step.
#[derive(Clone, Debug, PartialEq, Eq)]
pub enum CallbackReturn {
    /// The operation is finished; its results are on the operand stack.
    Return,
    /// Suspend the calling chain back to the nearest coroutine boundary,
    /// with an optional continuation for when the chain is resumed.
    Yield(Option<AnyContinuation>),
    /// Finish by invoking another callable in tail position, with an
    /// optional continuation for when that call's result is known.
    TailCall(Function, Option<AnyContinuation>),
    /// The operation is not finished: step this object again later.
    Sequence(AnySequence),
}

/// The closed set of native behaviors this library ships. A concrete
/// implementation of the call interface is one of these together with its
/// captured context values.
#[derive(Clone, Copy, Debug, PartialEq, Eq, Structural)]
pub enum NativeFn {
    /// The coroutine facility's `create`.
    CoroutineCreate,
    /// The coroutine facility's `resume`.
    CoroutineResume,
    /// The coroutine facility's `status`.
    CoroutineStatus,
    /// The coroutine facility's `yield`.
    CoroutineYield,
    /// Copy the captured context values to the front of the stack, keeping
    /// the rest, and finish.
    PushContextFront,
    /// Fail, raising the first captured context value (or nil) as a script
    /// error.
    FailWithContext,
}

/// A concrete native implementation: captured context values plus the
/// behavior invoked on them. The context is held in the heap, where the
/// collector can trace it.
#[derive(Clone, Debug, PartialEq, Eq)]
pub struct NativeCallback {
    pub context: Vec<Value>,
    pub behavior: NativeFn,
}

/// An opaque, identity-bearing handle to a native implementation: the
/// address (arena index) of its single heap allocation. Equality and hashing
/// are defined purely by this address: two handles are equal exactly when
/// they reference the same allocation, never by the contents captured there.
#[derive(Clone, Copy, Debug, PartialEq, Eq, Hash, Structural)]
pub struct AnyCallback(pub usize);

impl AnySequence {
    /// Wrap a stateful step object for the dispatch loop.
    pub fn new(state: SequenceState) -> (r: AnySequence)
        ensures
            r.state == state,
    {
        AnySequence { state }
    }

    /// One step of the object. `Ok(None)` means "not done yet": the caller
    /// must step again on a later turn. `Ok(Some(_))` is a terminal outcome
    /// and an error is a terminal failure: after either, the object is
    /// discarded and never stepped again.
    ///
    /// The thread poller reads the resumed thread from the bottom of the
    /// stack, where the resume protocol left it.
    pub fn step(&mut self, heap: &mut Heap, stack: &mut Vec<Value>) -> (r: Result<
        Option<CallbackReturn>,
        Error,
    >)
        requires
            old(heap).wf(),
            old(stack)@.len() > 0,
            old(stack)@[0] matches Value::Thread(t) && t.0 < old(heap).threads@.len(),
        ensures
            final(heap).wf(),
            final(heap).functions@ == old(heap).functions@,
            final(heap).callbacks@ == old(heap).callbacks@,
            sequence_step_post(*old(heap), old(stack)@, *final(heap), final(stack)@, r),
    {
        let t = match stack[0] {
            Value::Thread(t) => t,
            _ => unreached(),
        };
        match heap.thread_mode(t) {
            ThreadMode::Return => {
                stack.clear();
                match heap.take_return(t) {
                    Some(Ok(vals)) => {
                        stack.push(Value::Boolean(true));
                        push_values(stack, &vals);
                        proof {
                            assert(stack@ =~= seq![Value::Boolean(true)] + vals@);
                        }
                    },
                    Some(Err(e)) => {
                        stack.push(Value::Boolean(false));
                        stack.push(e);
                        proof {
                            assert(stack@ =~= seq![Value::Boolean(false), e]);
                        }
                    },
                    None => unreached(),
                }
                Ok(Some(CallbackReturn::Return))
            },
            ThreadMode::Normal => {
                heap.step_thread(t);
                Ok(None)
            },
            m => Err(Error::BadMode(BadThreadMode { expected: ThreadMode::Normal, found: m })),
        }
    }
}

/// What one step of the thread poller does, as a relation between the heap
/// and stack before and after, and the step's result:
///
/// - mode `Return`: the thread's pending result is extracted; the stack is
///   replaced by `true` followed by the result values on success, or `false`
///   followed by the error value on failure; the step yields the terminal
///   outcome `Return`.
/// - mode `Normal`: the thread is advanced by one activation; the stack is
///   untouched and the step reports "not done yet".
/// - any other mode is a protocol violation: nothing changes and the step
///   fails with the expected and found modes.
pub open spec fn sequence_step_post(
    h0: Heap,
    s0: Seq<Value>,
    h1: Heap,
    s1: Seq<Value>,
    r: Result<Option<CallbackReturn>, Error>,
) -> bool {
    match s0[0] {
        Value::Thread(t) => {
            let ts0 = h0.threads@[t.0 as int];
            match ts0.mode {
                ThreadMode::Return => {
                    &&& take_return_post(h0, h1, t, ts0.outcome)
                    &&& r == Ok::<Option<CallbackReturn>, Error>(Some(CallbackReturn::Return))
                    &&& match ts0.outcome {
                        Some(Ok(vals)) => s1 == seq![Value::Boolean(true)] + vals@,
                        Some(Err(e)) => s1 == seq![Value::Boolean(false), e],
                        None => false,
                    }
                },
                ThreadMode::Normal => {
                    &&& step_thread_post(h0, h1, t)
                    &&& s1 == s0
                    &&& r == Ok::<Option<CallbackReturn>, Error>(None)
                },
                mode => {
                    &&& h1 == h0
                    &&& s1 == s0
                    &&& r == Err::<Option<CallbackReturn>, Error>(
                        Error::BadMode(BadThreadMode { expected: ThreadMode::Normal, found: mode }),
                    )
                },
            }
        },
        _ => false,
    }
}

impl AnyContinuation {
    /// Wrap a concrete continuation implementation for the VM.
    pub fn new(continuation: NativeContinuation) -> (r: AnyContinuation)
        ensures
            r.context == continuation.context,
            r.on_ok == continuation.on_ok,
            r.on_err == continuation.on_err,
    {
        AnyContinuation {
            context: continuation.context,
            on_ok: continuation.on_ok,
            on_err: continuation.on_err,
        }
    }

    /// Build a continuation from a plain pair of behaviors, with no captured
    /// context.
    pub fn from_fns(on_ok: OkAction, on_err: ErrAction) -> (r: AnyContinuation)
        ensures
            r.context@ == Seq::<Value>::empty(),
            r.on_ok == on_ok,
            r.on_err == on_err,
    {
        AnyContinuation { context: Vec::new(), on_ok, on_err }
    }

    /// Build a continuation from a pair of behaviors over captured context
    /// values.
    pub fn from_fns_with(context: Vec<Value>, on_ok: OkAction, on_err: ErrAction) -> (r:
        AnyContinuation)
        ensures
            r.context == context,
            r.on_ok == on_ok,
            r.on_err == on_err,
    {
        AnyContinuation { context, on_ok, on_err }
    }

    /// Build a continuation from a success behavior alone: its failure path
    /// re-raises the error unchanged.
    pub fn from_ok_fn(on_ok: OkAction) -> (r: AnyContinuation)
        ensures
            r.context@ == Seq::<Value>::empty(),
            r.on_ok == on_ok,
            r.on_err == ErrAction::Reraise,
    {
        AnyContinuation { context: Vec::new(), on_ok, on_err: ErrAction::Reraise }
    }

    /// Build a continuation from a success behavior over captured context
    /// values: its failure path re-raises the error unchanged.
    pub fn from_ok_fn_with(context: Vec<Value>, on_ok: OkAction) -> (r: AnyContinuation)
        ensures
            r.context == context,
            r.on_ok == on_ok,
            r.on_err == ErrAction::Reraise,
    {
        AnyContinuation { context, on_ok, on_err: ErrAction::Reraise }
    }

    /// The suspended chain produced a result: run the success behavior on
    /// the stack the VM populated with it.
    pub fn continue_ok(&self, stack: &mut Vec<Value>) -> (r: Result<CallbackReturn, Error>)
        ensures
            continue_ok_post(*self, old(stack)@, final(stack)@, r),
    {
        match self.on_ok {
            OkAction::FinishWithStack => Ok(CallbackReturn::Return),
            OkAction::FinishWithContext => {
                stack.clear();
                push_values(stack, &self.context);
                proof {
                    assert(stack@ =~= self.context@);
                }
                Ok(CallbackReturn::Return)
            },
        }
    }

    /// The suspended chain failed: run the failure behavior on the error.
    pub fn continue_err(&self, stack: &mut Vec<Value>, error: Error) -> (r: Result<
        CallbackReturn,
        Error,
    >)
        ensures
            continue_err_post(*self, old(stack)@, final(stack)@, error, r),
    {
        match self.on_err {
            ErrAction::Reraise => Err(error),
            ErrAction::FinishWithContext => {
                stack.clear();
                push_values(stack, &self.context);
                proof {
                    assert(stack@ =~= self.context@);
                }
                Ok(CallbackReturn::Return)
            },
        }
    }
}

/// What the success path of a continuation does.
pub open spec fn continue_ok_post(
    c: AnyContinuation,
    s0: Seq<Value>,
    s1: Seq<Value>,
    r: Result<CallbackReturn, Error>,
) -> bool {
    match c.on_ok {
        OkAction::FinishWithStack => s1 == s0 && r == Ok::<CallbackReturn, Error>(CallbackReturn::Return),
        OkAction::FinishWithContext => s1 == c.context@ && r == Ok::<CallbackReturn, Error>(CallbackReturn::Return),
    }
}

/// What the failure path of a continuation does: a re-raising continuation
/// returns exactly the error it was given, with the stack untouched.
pub open spec fn continue_err_post(
    c: AnyContinuation,
    s0: Seq<Value>,
    s1: Seq<Value>,
    error: Error,
    r: Result<CallbackReturn, Error>,
) -> bool {
    match c.on_err {
        ErrAction::Reraise => s1 == s0 && r == Err::<CallbackReturn, Error>(error),
        ErrAction::FinishWithContext => s1 == c.context@ && r == Ok::<CallbackReturn, Error>(CallbackReturn::Return),
    }
}

impl AnyCallback {
    /// The address of the handle's backing allocation: an opaque,
    /// address-sized value by which handles are compared, hashed and
    /// displayed.
    pub fn as_ptr(self) -> (r: usize)
        ensures
            r == self.0,
    {
        self.0
    }

    /// Register a concrete native implementation in the heap and hand back
    /// its handle. Construction never fails; each construction makes a
    /// distinct allocation, so the handle's identity is fresh.
    pub fn new(heap: &mut Heap, callback: NativeCallback) -> (r: AnyCallback)
        requires
            old(heap).wf(),
        ensures
            final(heap).wf(),
            r.0 == old(heap).callbacks@.len(),
            final(heap).callbacks@ == old(heap).callbacks@.push(callback),
            final(heap).functions@ == old(heap).functions@,
            final(heap).threads@ == old(heap).threads@,
    {
        let r = AnyCallback(heap.callbacks.len());
        heap.callbacks.push(callback);
        r
    }

    /// Register a behavior with no captured context.
    pub fn from_fn(heap: &mut Heap, behavior: NativeFn) -> (r: AnyCallback)
        requires
            old(heap).wf(),
        ensures
            final(heap).wf(),
            r.0 == old(heap).callbacks@.len(),
            final(heap).callbacks@.len() == old(heap).callbacks@.len() + 1,
            forall|j: int|
                0 <= j < old(heap).callbacks@.len() ==> final(heap).callbacks@[j] == #[trigger] old(
                    heap,
                ).callbacks@[j],
            final(heap).callbacks@[r.0 as int].context@ == Seq::<Value>::empty(),
            final(heap).callbacks@[r.0 as int].behavior == behavior,
            final(heap).functions@ == old(heap).functions@,
            final(heap).threads@ == old(heap).threads@,
    {
        AnyCallback::new(heap, NativeCallback { context: Vec::new(), behavior })
    }

    /// Register a behavior together with captured context values, threaded
    /// to the behavior as its first argument on every call.
    pub fn from_fn_with(heap: &mut Heap, context: Vec<Value>, behavior: NativeFn) -> (r:
        AnyCallback)
        requires
            old(heap).wf(),
        ensures
            final(heap).wf(),
            r.0 == old(heap).callbacks@.len(),
            final(heap).callbacks@ == old(heap).callbacks@.push(NativeCallback { context, behavior }),
            final(heap).functions@ == old(heap).functions@,
            final(heap).threads@ == old(heap).threads@,
    {
        AnyCallback::new(heap, NativeCallback { context, behavior })
    }

    /// What a call of this handle requires of the heap and stack, beyond a
    /// well-formed heap: the coroutine natives index the heap through the
    /// handles they find on the stack, so those handles must be live.
    pub open spec fn call_pre(self, h: Heap, s: Seq<Value>) -> bool {
        match h.callbacks@[self.0 as int].behavior {
            NativeFn::CoroutineCreate => s.len() > 0 ==> (s[0] matches Value::Function(f)
                ==> f.0 < h.functions@.len()),
            NativeFn::CoroutineResume => s.len() > 0 ==> (s[0] matches Value::Thread(t) ==> t.0
                < h.threads@.len()),
            NativeFn::CoroutineStatus => s.len() > 0 ==> (s[0] matches Value::Thread(t) ==> t.0
                < h.threads@.len()),
            _ => true,
        }
    }

    /// Invoke the implementation this handle references with the given
    /// operand stack. Whatever the implementation does to the stack is
    /// visible to the caller; the call fails exactly when the implementation
    /// fails.
    pub fn call(self, heap: &mut Heap, stack: &mut Vec<Value>) -> (r: Result<CallbackReturn, Error>)
        requires
            old(heap).wf(),
            self.0 < old(heap).callbacks@.len(),
            self.call_pre(*old(heap), old(stack)@),
        ensures
            final(heap).wf(),
            call_post(*old(heap), old(stack)@, self, *final(heap), final(stack)@, r),
    {
        let behavior = heap.callbacks[self.0].behavior;
        match behavior {
            NativeFn::CoroutineCreate => coroutine_create(heap, stack),
            NativeFn::CoroutineResume => coroutine_resume(heap, stack),
            NativeFn::CoroutineStatus => coroutine_status(heap, stack),
            NativeFn::CoroutineYield => coroutine_yield(heap, stack),
            NativeFn::PushContextFront => {
                let mut front = clone_values(&heap.callbacks[self.0].context);
                push_values(&mut front, stack);
                *stack = front;
                Ok(CallbackReturn::Return)
            },
            NativeFn::FailWithContext => {
                let v = if heap.callbacks[self.0].context.len() > 0 {
                    heap.callbacks[self.0].context[0]
                } else {
                    Value::Nil
                };
                Err(Error::Script(v))
            },
        }
    }
}

/// What `AnyCallback::call` does: exactly the logic of the implementation
/// stored at the handle's allocation, applied to the given heap and stack.
pub open spec fn call_post(
    h0: Heap,
    s0: Seq<Value>,
    cb: AnyCallback,
    h1: Heap,
    s1: Seq<Value>,
    r: Result<CallbackReturn, Error>,
) -> bool {
    let entry = h0.callbacks@[cb.0 as int];
    match entry.behavior {
        NativeFn::CoroutineCreate => coroutine_create_post(h0, s0, h1, s1, r),
        NativeFn::CoroutineResume => coroutine_resume_post(h0, s0, h1, s1, r),
        NativeFn::CoroutineStatus => coroutine_status_post(h0, s0, h1, s1, r),
        NativeFn::CoroutineYield => coroutine_yield_post(h0, s0, h1, s1, r),
        NativeFn::PushContextFront => {
            &&& h1 == h0
            &&& s1 == entry.context@ + s0
            &&& r == Ok::<CallbackReturn, Error>(CallbackReturn::Return)
        },
        NativeFn::FailWithContext => {
            &&& h1 == h0
            &&& s1 == s0
            &&& r == Err::<CallbackReturn, Error>(
                Error::Script(
                    if entry.context@.len() > 0 {
                        entry.context@[0]
                    } else {
                        Value::Nil
                    },
                ),
            )
        },
    }
}

} // verus!
