//! End-to-end tests of the coroutine facility: create, resume, status and
//! yield, driven the way the VM dispatch loop drives them.

use coroutine_core::callback::{
    AnySequence, BadThreadMode, CallbackReturn, Error, SequenceState, TypeError,
};
use coroutine_core::coroutine::{
    coroutine_create, coroutine_resume, coroutine_status, coroutine_yield, load_coroutine,
    status_name,
};
use coroutine_core::heap::{Heap, ThreadMode, Turn};
use coroutine_core::value::Value;

/// Run `create` on a stack holding the given function and hand back the new
/// thread value.
fn create_thread(heap: &mut Heap, f: Value) -> Value {
    let mut stack = vec![f];
    let r = coroutine_create(heap, &mut stack);
    assert!(matches!(r, Ok(CallbackReturn::Return)));
    assert_eq!(stack.len(), 1);
    stack[0]
}

/// Resume the thread at the bottom of the stack and drive the returned step
/// object until it yields its terminal outcome, as the VM dispatch loop
/// would; the results are left on the stack.
fn resume_and_drive(heap: &mut Heap, stack: &mut Vec<Value>) -> Result<(), Error> {
    let mut seq = match coroutine_resume(heap, stack)? {
        CallbackReturn::Sequence(seq) => seq,
        other => panic!("resume returned {:?}", other),
    };
    loop {
        match seq.step(heap, stack)? {
            None => continue,
            Some(CallbackReturn::Return) => return Ok(()),
            Some(other) => panic!("poller returned {:?}", other),
        }
    }
}

/// The status string of a thread value.
fn status_of(heap: &mut Heap, thread: Value) -> &'static str {
    let mut stack = vec![thread];
    let r = coroutine_status(heap, &mut stack);
    assert!(matches!(r, Ok(CallbackReturn::Return)));
    match stack[0] {
        Value::Str(s) => s,
        other => panic!("status pushed {:?}", other),
    }
}

#[test]
fn create_rejects_non_functions_with_a_type_error() {
    let mut heap = Heap::new();
    let mut stack = vec![Value::Integer(3)];
    let r = coroutine_create(&mut heap, &mut stack);
    assert_eq!(
        r,
        Err(Error::Type(TypeError { expected: "function", found: "integer" }))
    );
    assert_eq!(stack, vec![Value::Integer(3)]);

    // An empty stack counts as a nil first argument.
    let mut stack: Vec<Value> = Vec::new();
    let r = coroutine_create(&mut heap, &mut stack);
    assert_eq!(r, Err(Error::Type(TypeError { expected: "function", found: "nil" })));
}

#[test]
fn create_returns_a_suspended_thread() {
    let mut heap = Heap::new();
    let f = heap.alloc_function(vec![Turn::Finish(vec![])]);
    let thread = create_thread(&mut heap, Value::Function(f));
    assert!(matches!(thread, Value::Thread(_)));
    assert_eq!(status_of(&mut heap, thread), "suspended");
}

#[test]
fn resume_rejects_non_threads_with_a_type_error() {
    let mut heap = Heap::new();
    let mut stack = vec![Value::Boolean(true)];
    let r = coroutine_resume(&mut heap, &mut stack);
    assert_eq!(r, Err(Error::Type(TypeError { expected: "thread", found: "boolean" })));
}

#[test]
fn resume_rejects_a_thread_that_is_not_suspended() {
    let mut heap = Heap::new();
    // A freshly allocated, never started thread is Stopped, not Suspended.
    let t = heap.new_thread();
    let mut stack = vec![Value::Thread(t), Value::Integer(1)];
    let r = coroutine_resume(&mut heap, &mut stack);
    assert_eq!(r, Err(Error::Runtime("cannot resume thread")));
    // The arguments above the thread were already drained when the mode
    // check rejected the resume.
    assert_eq!(stack, vec![Value::Thread(t)]);
}

#[test]
fn status_rejects_non_threads_with_a_type_error() {
    let mut heap = Heap::new();
    let mut stack = vec![Value::Str("x")];
    let r = coroutine_status(&mut heap, &mut stack);
    assert_eq!(r, Err(Error::Type(TypeError { expected: "thread", found: "string" })));
}

#[test]
fn yield_suspends_with_no_continuation() {
    let mut heap = Heap::new();
    let mut stack = vec![Value::Integer(1)];
    let r = coroutine_yield(&mut heap, &mut stack);
    assert!(matches!(r, Ok(CallbackReturn::Yield(None))));
    // The arguments stay on the stack for the resume boundary.
    assert_eq!(stack, vec![Value::Integer(1)]);
}

#[test]
fn immediate_return_delivers_true_and_the_results() {
    let mut heap = Heap::new();
    let f = heap.alloc_function(vec![Turn::Finish(vec![Value::Integer(1), Value::Integer(2)])]);
    let thread = create_thread(&mut heap, Value::Function(f));

    let mut stack = vec![thread];
    resume_and_drive(&mut heap, &mut stack).unwrap();
    assert_eq!(
        stack,
        vec![Value::Boolean(true), Value::Integer(1), Value::Integer(2)]
    );
    assert_eq!(status_of(&mut heap, thread), "dead");
}

#[test]
fn yield_then_return_takes_two_resumes() {
    let mut heap = Heap::new();
    let f = heap.alloc_function(vec![
        Turn::Yield(vec![Value::Integer(10)]),
        Turn::Finish(vec![Value::Integer(20)]),
    ]);
    let thread = create_thread(&mut heap, Value::Function(f));

    let mut stack = vec![thread];
    resume_and_drive(&mut heap, &mut stack).unwrap();
    assert_eq!(stack, vec![Value::Boolean(true), Value::Integer(10)]);
    assert_eq!(status_of(&mut heap, thread), "suspended");

    // Extra resume arguments ride above the thread and are handed to it.
    let mut stack = vec![thread, Value::Integer(99)];
    resume_and_drive(&mut heap, &mut stack).unwrap();
    assert_eq!(stack, vec![Value::Boolean(true), Value::Integer(20)]);
    assert_eq!(status_of(&mut heap, thread), "dead");
}

#[test]
fn a_failing_body_delivers_false_and_the_error_value() {
    let mut heap = Heap::new();
    let f = heap.alloc_function(vec![Turn::Fail(Value::Str("boom"))]);
    let thread = create_thread(&mut heap, Value::Function(f));

    let mut stack = vec![thread];
    // The error is delivered on the stack, never raised to the caller.
    let r = resume_and_drive(&mut heap, &mut stack);
    assert!(r.is_ok());
    assert_eq!(stack, vec![Value::Boolean(false), Value::Str("boom")]);
    assert_eq!(status_of(&mut heap, thread), "dead");
}

#[test]
fn the_poller_reports_not_done_once_then_delivers() {
    let mut heap = Heap::new();
    let f = heap.alloc_function(vec![Turn::Finish(vec![Value::Integer(5)])]);
    let thread = create_thread(&mut heap, Value::Function(f));

    let mut stack = vec![thread];
    let mut seq = match coroutine_resume(&mut heap, &mut stack) {
        Ok(CallbackReturn::Sequence(seq)) => seq,
        other => panic!("resume returned {:?}", other),
    };
    // First step: the thread still has work; the poller advances it.
    assert_eq!(seq.step(&mut heap, &mut stack), Ok(None));
    // Second step: the result is ready and delivered; terminal.
    assert_eq!(
        seq.step(&mut heap, &mut stack),
        Ok(Some(CallbackReturn::Return))
    );
    assert_eq!(stack, vec![Value::Boolean(true), Value::Integer(5)]);
}

#[test]
fn polling_an_unexpected_mode_is_a_bad_mode_error() {
    let mut heap = Heap::new();
    let f = heap.alloc_function(vec![Turn::Finish(vec![])]);
    let thread = create_thread(&mut heap, Value::Function(f));

    // The thread was never resumed: it is still Suspended, a mode the
    // poller must never observe.
    let mut stack = vec![thread];
    let mut seq = AnySequence::new(SequenceState::PollThread);
    let r = seq.step(&mut heap, &mut stack);
    assert_eq!(
        r,
        Err(Error::BadMode(BadThreadMode {
            expected: ThreadMode::Normal,
            found: ThreadMode::Suspended,
        }))
    );
    assert_eq!(stack, vec![thread]);
}

#[test]
fn status_names_every_mode() {
    let mut heap = Heap::new();
    let f = heap.alloc_function(vec![Turn::Yield(vec![]), Turn::Finish(vec![])]);

    let suspended = create_thread(&mut heap, Value::Function(f));
    assert_eq!(status_of(&mut heap, suspended), "suspended");

    let t = match suspended {
        Value::Thread(t) => t,
        _ => unreachable!(),
    };
    // Resumed but not yet stepped: Normal.
    let mut stack = vec![suspended];
    let _ = coroutine_resume(&mut heap, &mut stack).unwrap();
    assert_eq!(status_of(&mut heap, suspended), "normal");

    // Stepped: the yield's result is pending, so the thread reports dead
    // until the poller extracts it.
    heap.step_thread(t);
    assert_eq!(status_of(&mut heap, suspended), "dead");

    // Extracted: suspended again, since the result came from a yield.
    assert!(heap.take_return(t).is_some());
    assert_eq!(status_of(&mut heap, suspended), "suspended");

    // A never started thread is Stopped: dead.
    let stopped = heap.new_thread();
    assert_eq!(status_of(&mut heap, Value::Thread(stopped)), "dead");

    // The full mode-to-name mapping, including the mode of the currently
    // executing thread, which the facility itself never observes.
    assert_eq!(status_name(ThreadMode::Stopped), "dead");
    assert_eq!(status_name(ThreadMode::Return), "dead");
    assert_eq!(status_name(ThreadMode::Running), "running");
    assert_eq!(status_name(ThreadMode::Normal), "normal");
    assert_eq!(status_name(ThreadMode::Suspended), "suspended");
}

#[test]
fn the_facility_loads_four_distinct_callables() {
    let mut heap = Heap::new();
    let lib = load_coroutine(&mut heap);
    assert_ne!(lib.create, lib.resume);
    assert_ne!(lib.create, lib.status);
    assert_ne!(lib.create, lib.yield_fn);
    assert_ne!(lib.resume, lib.status);
    assert_ne!(lib.resume, lib.yield_fn);
    assert_ne!(lib.status, lib.yield_fn);

    // Drive the whole scenario through the loaded callables, as a script
    // would.
    let f = heap.alloc_function(vec![Turn::Finish(vec![Value::Integer(1), Value::Integer(2)])]);
    let mut stack = vec![Value::Function(f)];
    assert!(matches!(lib.create.call(&mut heap, &mut stack), Ok(CallbackReturn::Return)));
    let thread = stack[0];

    let mut seq = match lib.resume.call(&mut heap, &mut stack) {
        Ok(CallbackReturn::Sequence(seq)) => seq,
        other => panic!("resume returned {:?}", other),
    };
    loop {
        match seq.step(&mut heap, &mut stack).unwrap() {
            None => continue,
            Some(CallbackReturn::Return) => break,
            Some(other) => panic!("poller returned {:?}", other),
        }
    }
    assert_eq!(
        stack,
        vec![Value::Boolean(true), Value::Integer(1), Value::Integer(2)]
    );

    let mut stack = vec![thread];
    assert!(matches!(lib.status.call(&mut heap, &mut stack), Ok(CallbackReturn::Return)));
    assert_eq!(stack, vec![Value::Str("dead")]);

    let mut stack: Vec<Value> = Vec::new();
    assert!(matches!(
        lib.yield_fn.call(&mut heap, &mut stack),
        Ok(CallbackReturn::Yield(None))
    ));
}
