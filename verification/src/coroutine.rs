//! The coroutine facility: the native functions `create`, `resume`,
//! `status` and `yield`, built from the protocol types and the thread
//! engine's mode contract.
//!
//! `resume` does not drive the thread itself: it hands the VM a stateful
//! step object (the thread poller of [`crate::callback::AnySequence`]) that
//! advances the thread one activation per VM turn and finally replaces the
//! stack with `true` and the thread's results, or `false` and its error
//! value.

use vstd::prelude::*;

use crate::callback::{
    AnyCallback, AnySequence, BadThreadMode, CallbackReturn, Error, NativeFn, SequenceState,
    TypeError,
};
use crate::heap::{resume_thread_post, Heap, ThreadMode};
use crate::value::{kind_name_spec, Thread, Value};

verus! {

/// The status name a thread's mode maps to: a thread holding a pending
/// result or stopped is `"dead"`; the others report their mode.
pub open spec fn status_text(m: ThreadMode) -> Seq<char> {
    match m {
        ThreadMode::Stopped => "dead"@,
        ThreadMode::Return => "dead"@,
        ThreadMode::Running => "running"@,
        ThreadMode::Normal => "normal"@,
        ThreadMode::Suspended => "suspended"@,
    }
}

/// The status name a thread's mode maps to.
pub fn status_name(m: ThreadMode) -> (r: &'static str)
    ensures
        r@ == status_text(m),
{
    match m {
        ThreadMode::Stopped => "dead",
        ThreadMode::Return => "dead",
        ThreadMode::Running => "running",
        ThreadMode::Normal => "normal",
        ThreadMode::Suspended => "suspended",
    }
}

/// The first value of the stack, or nil when the stack is empty: the way a
/// native function reads its first argument.
pub open spec fn first_arg(s: Seq<Value>) -> Value {
    if s.len() > 0 {
        s[0]
    } else {
        Value::Nil
    }
}

/// What `create` does.
///
/// On a function argument it allocates a fresh thread bound to that
/// function in the `Suspended` mode and finishes with the thread as its one
/// result. On anything else it fails with a type error whose expected kind
/// is `"function"` and whose found kind names the argument, changing
/// nothing.
pub open spec fn coroutine_create_post(
    h0: Heap,
    s0: Seq<Value>,
    h1: Heap,
    s1: Seq<Value>,
    r: Result<CallbackReturn, Error>,
) -> bool {
    match first_arg(s0) {
        Value::Function(f) => {
            &&& h1.functions@ == h0.functions@
            &&& h1.callbacks@ == h0.callbacks@
            &&& h1.threads@.len() == h0.threads@.len() + 1
            &&& forall|j: int|
                0 <= j < h0.threads@.len() ==> h1.threads@[j] == #[trigger] h0.threads@[j]
            &&& h1.threads@[h0.threads@.len() as int].mode is Suspended
            &&& h1.threads@[h0.threads@.len() as int].body == Some(f)
            &&& h1.threads@[h0.threads@.len() as int].pc == 0
            &&& s1 == seq![Value::Thread(Thread(h0.threads@.len() as usize))]
            &&& r == Ok::<CallbackReturn, Error>(CallbackReturn::Return)
        },
        v => {
            &&& h1 == h0
            &&& s1 == s0
            &&& r matches Err(Error::Type(te)) && te.expected@ == "function"@ && te.found@
                == kind_name_spec(v)
        },
    }
}

/// `create`: make a new coroutine thread from the function on the stack.
pub fn coroutine_create(heap: &mut Heap, stack: &mut Vec<Value>) -> (r: Result<
    CallbackReturn,
    Error,
>)
    requires
        old(heap).wf(),
        first_arg(old(stack)@) matches Value::Function(f) ==> f.0 < old(heap).functions@.len(),
    ensures
        final(heap).wf(),
        coroutine_create_post(*old(heap), old(stack)@, *final(heap), final(stack)@, r),
{
    let v = if stack.len() > 0 {
        stack[0]
    } else {
        Value::Nil
    };
    let f = match v {
        Value::Function(f) => f,
        _ => {
            return Err(
                Error::Type(TypeError { expected: "function", found: v.kind_name() }),
            );
        },
    };
    let t = heap.new_thread();
    let started = heap.start_suspended(t, f);
    proof {
        assert(started is Ok);
    }
    stack.clear();
    stack.push(Value::Thread(t));
    proof {
        assert(stack@ =~= seq![Value::Thread(t)]);
    }
    Ok(CallbackReturn::Return)
}

/// What `resume` does.
///
/// On a thread argument it removes everything above the thread from the
/// stack and hands those values to the thread as resume arguments. If the
/// thread was `Suspended` it becomes runnable and the call finishes with
/// the thread poller as a stateful step object; on any other mode the call
/// fails with the documented runtime error, leaving the thread untouched.
/// On a non-thread argument it fails with a type error whose expected kind
/// is `"thread"`, changing nothing.
pub open spec fn coroutine_resume_post(
    h0: Heap,
    s0: Seq<Value>,
    h1: Heap,
    s1: Seq<Value>,
    r: Result<CallbackReturn, Error>,
) -> bool {
    match first_arg(s0) {
        Value::Thread(t) => {
            &&& h1.functions@ == h0.functions@
            &&& h1.callbacks@ == h0.callbacks@
            &&& s1 == s0.subrange(0, 1)
            &&& if h0.threads@[t.0 as int].mode is Suspended {
                &&& resume_thread_post(h0, h1, t, s0.skip(1), Ok(()))
                &&& r == Ok::<CallbackReturn, Error>(
                    CallbackReturn::Sequence(AnySequence { state: SequenceState::PollThread }),
                )
            } else {
                &&& h1.threads@ == h0.threads@
                &&& r matches Err(Error::Runtime(m)) && m@ == "cannot resume thread"@
            }
        },
        v => {
            &&& h1 == h0
            &&& s1 == s0
            &&& r matches Err(Error::Type(te)) && te.expected@ == "thread"@ && te.found@
                == kind_name_spec(v)
        },
    }
}

/// `resume`: hand the remaining stack values to the thread on the stack and
/// return the stateful step object that polls it.
pub fn coroutine_resume(heap: &mut Heap, stack: &mut Vec<Value>) -> (r: Result<
    CallbackReturn,
    Error,
>)
    requires
        old(heap).wf(),
        first_arg(old(stack)@) matches Value::Thread(t) ==> t.0 < old(heap).threads@.len(),
    ensures
        final(heap).wf(),
        coroutine_resume_post(*old(heap), old(stack)@, *final(heap), final(stack)@, r),
{
    let v = if stack.len() > 0 {
        stack[0]
    } else {
        Value::Nil
    };
    let t = match v {
        Value::Thread(t) => t,
        _ => {
            return Err(Error::Type(TypeError { expected: "thread", found: v.kind_name() }));
        },
    };
    let args = stack.split_off(1);
    proof {
        assert(args@ =~= old(stack)@.skip(1));
    }
    match heap.resume_thread(t, args) {
        Ok(_) => Ok(CallbackReturn::Sequence(AnySequence::new(SequenceState::PollThread))),
        Err(_) => {
            proof {
                assert(heap.threads@ =~= old(heap).threads@);
            }
            Err(Error::Runtime("cannot resume thread"))
        },
    }
}

/// What `status` does.
///
/// On a thread argument it replaces the stack with the one string that
/// names the thread's mode, changing nothing else. On a non-thread argument
/// it fails with a type error whose expected kind is `"thread"`, changing
/// nothing.
pub open spec fn coroutine_status_post(
    h0: Heap,
    s0: Seq<Value>,
    h1: Heap,
    s1: Seq<Value>,
    r: Result<CallbackReturn, Error>,
) -> bool {
    match first_arg(s0) {
        Value::Thread(t) => {
            &&& h1 == h0
            &&& s1.len() == 1
            &&& s1[0] matches Value::Str(n) && n@ == status_text(h0.threads@[t.0 as int].mode)
            &&& r == Ok::<CallbackReturn, Error>(CallbackReturn::Return)
        },
        v => {
            &&& h1 == h0
            &&& s1 == s0
            &&& r matches Err(Error::Type(te)) && te.expected@ == "thread"@ && te.found@
                == kind_name_spec(v)
        },
    }
}

/// `status`: report the status name of the thread on the stack.
pub fn coroutine_status(heap: &mut Heap, stack: &mut Vec<Value>) -> (r: Result<
    CallbackReturn,
    Error,
>)
    requires
        old(heap).wf(),
        first_arg(old(stack)@) matches Value::Thread(t) ==> t.0 < old(heap).threads@.len(),
    ensures
        final(heap).wf(),
        coroutine_status_post(*old(heap), old(stack)@, *final(heap), final(stack)@, r),
{
    let v = if stack.len() > 0 {
        stack[0]
    } else {
        Value::Nil
    };
    let t = match v {
        Value::Thread(t) => t,
        _ => {
            return Err(Error::Type(TypeError { expected: "thread", found: v.kind_name() }));
        },
    };
    let m = heap.thread_mode(t);
    stack.clear();
    stack.push(Value::Str(status_name(m)));
    Ok(CallbackReturn::Return)
}

/// What `yield` does: it always succeeds, immediately suspending the whole
/// calling chain with no continuation and leaving its arguments on the
/// stack for the resume boundary; heap and stack are untouched.
pub open spec fn coroutine_yield_post(
    h0: Heap,
    s0: Seq<Value>,
    h1: Heap,
    s1: Seq<Value>,
    r: Result<CallbackReturn, Error>,
) -> bool {
    &&& h1 == h0
    &&& s1 == s0
    &&& r == Ok::<CallbackReturn, Error>(CallbackReturn::Yield(None))
}

/// `yield`: suspend the calling chain back to the nearest resume boundary.
pub fn coroutine_yield(heap: &mut Heap, stack: &mut Vec<Value>) -> (r: Result<
    CallbackReturn,
    Error,
>)
    ensures
        *final(heap) == *old(heap),
        coroutine_yield_post(*old(heap), old(stack)@, *final(heap), final(stack)@, r),
{
    Ok(CallbackReturn::Yield(None))
}

/// The coroutine facility as a set of registered callables, ready to be
/// installed into the VM's environment under the usual field names.
pub struct CoroutineLib {
    /// The callable behind the `create` field.
    pub create: AnyCallback,
    /// The callable behind the `resume` field.
    pub resume: AnyCallback,
    /// The callable behind the `status` field.
    pub status: AnyCallback,
    /// The callable behind the `yield` field; named for the keyword.
    pub yield_fn: AnyCallback,
}

/// Register the four coroutine natives in the heap. The environment table
/// that receives them belongs to the surrounding VM's value model; the
/// facility hands back the four freshly allocated callables.
pub fn load_coroutine(heap: &mut Heap) -> (lib: CoroutineLib)
    requires
        old(heap).wf(),
    ensures
        final(heap).wf(),
        final(heap).functions@ == old(heap).functions@,
        final(heap).threads@ == old(heap).threads@,
        final(heap).callbacks@.len() == old(heap).callbacks@.len() + 4,
        forall|j: int|
            0 <= j < old(heap).callbacks@.len() ==> final(heap).callbacks@[j] == #[trigger] old(
                heap,
            ).callbacks@[j],
        lib.create.0 < final(heap).callbacks@.len() && final(heap).callbacks@[lib.create.0 as int].behavior
            == NativeFn::CoroutineCreate,
        lib.resume.0 < final(heap).callbacks@.len() && final(heap).callbacks@[lib.resume.0 as int].behavior
            == NativeFn::CoroutineResume,
        lib.status.0 < final(heap).callbacks@.len() && final(heap).callbacks@[lib.status.0 as int].behavior
            == NativeFn::CoroutineStatus,
        lib.yield_fn.0 < final(heap).callbacks@.len() && final(heap).callbacks@[lib.yield_fn.0 as int].behavior
            == NativeFn::CoroutineYield,
        lib.create != lib.resume && lib.create != lib.status && lib.create != lib.yield_fn
            && lib.resume != lib.status && lib.resume != lib.yield_fn && lib.status
            != lib.yield_fn,
{
    let create = AnyCallback::from_fn(heap, NativeFn::CoroutineCreate);
    let resume = AnyCallback::from_fn(heap, NativeFn::CoroutineResume);
    let status = AnyCallback::from_fn(heap, NativeFn::CoroutineStatus);
    let yield_fn = AnyCallback::from_fn(heap, NativeFn::CoroutineYield);
    CoroutineLib { create, resume, status, yield_fn }
}

} // verus!
