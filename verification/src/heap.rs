//! The arena standing for the collected heap, and the coroutine thread
//! engine.
//!
//! The tracing collector and the full thread execution engine are external
//! collaborators; this module models exactly the part of them that the
//! suspension core depends on. Allocation hands out an index that plays the
//! role of the allocation's address, so handles have pointer identity.
//!
//! A thread drives a script function, modelled as the sequence of turns the
//! function takes between suspension points: each activation either yields
//! values, finishes with values, or fails with an error value. The thread's
//! mode contract is the one the resume protocol depends on:
//!
//! - `resume` moves a `Suspended` thread toward execution and fails on any
//!   other mode;
//! - `step` advances a thread whose mode is `Normal`;
//! - `mode` reports the current state;
//! - `take_return` extracts the pending result exactly once, only when the
//!   mode is `Return`; afterwards the thread is `Suspended` again if the
//!   result came from a yield, and `Stopped` if the function finished or
//!   failed.

use vstd::prelude::*;

use crate::callback::NativeCallback;
use crate::value::{Function, Thread, Value};

verus! {

/// The externally visible execution state of a coroutine thread.
#[derive(Clone, Copy, Debug, PartialEq, Eq, Structural)]
pub enum ThreadMode {
    /// The thread has finished, failed, or was never started.
    Stopped,
    /// The thread is the one currently executing.
    Running,
    /// The thread has work it can do without further input.
    Normal,
    /// The thread waits to be resumed.
    Suspended,
    /// The thread holds a pending result, not yet extracted.
    Return,
}

/// One activation of a script function: what it does between two suspension
/// points.
#[derive(Clone, Debug, PartialEq, Eq)]
pub enum Turn {
    /// Suspend the calling chain, delivering these values to the resumer.
    Yield(Vec<Value>),
    /// Finish, delivering these values as the function's results.
    Finish(Vec<Value>),
    /// Fail with this error value.
    Fail(Value),
}

/// A script function, modelled as its successive turns.
#[derive(Clone, Debug, PartialEq, Eq)]
pub struct ScriptFunction {
    pub turns: Vec<Turn>,
}

/// The state of one coroutine thread.
#[derive(Clone, Debug, PartialEq, Eq)]
pub struct ThreadState {
    pub mode: ThreadMode,
    /// The function the thread is bound to; set when the thread is started.
    pub body: Option<Function>,
    /// The index of the next turn of the body.
    pub pc: usize,
    /// The arguments handed to the latest `resume`.
    pub resume_args: Vec<Value>,
    /// The pending result, present exactly while the mode is `Return`:
    /// the values a turn yielded or finished with, or the error value it
    /// failed with.
    pub outcome: Option<Result<Vec<Value>, Value>>,
    /// Whether the pending result came from a yield (the thread can be
    /// resumed again) rather than from finishing or failing.
    pub yielded: bool,
}

/// The arena standing for the collected heap: script functions, native
/// callbacks and threads, each addressed by the index of its allocation.
pub struct Heap {
    pub functions: Vec<ScriptFunction>,
    pub callbacks: Vec<NativeCallback>,
    pub threads: Vec<ThreadState>,
}

impl Heap {
    /// A thread state is consistent with the heap it lives in.
    pub open spec fn thread_ok(self, ts: ThreadState) -> bool {
        &&& (ts.mode is Return) <==> (ts.outcome is Some)
        &&& match ts.body {
            Some(f) => f.0 < self.functions@.len()
                && ts.pc <= self.functions@[f.0 as int].turns@.len(),
            None => ts.mode is Stopped,
        }
    }

    /// Every thread of the heap is consistent: a pending result is present
    /// exactly in mode `Return`, and a started thread's body and program
    /// counter are in bounds.
    pub open spec fn wf(self) -> bool {
        forall|i: int|
            0 <= i < self.threads@.len() ==> self.thread_ok(#[trigger] self.threads@[i])
    }

    /// An empty heap.
    pub fn new() -> (h: Heap)
        ensures
            h.wf(),
            h.functions@.len() == 0,
            h.callbacks@.len() == 0,
            h.threads@.len() == 0,
    {
        Heap { functions: Vec::new(), callbacks: Vec::new(), threads: Vec::new() }
    }

    /// Allocate a script function; the handle is the allocation's address.
    pub fn alloc_function(&mut self, turns: Vec<Turn>) -> (f: Function)
        requires
            old(self).wf(),
        ensures
            final(self).wf(),
            f.0 == old(self).functions@.len(),
            final(self).functions@ == old(self).functions@.push(ScriptFunction { turns }),
            final(self).callbacks@ == old(self).callbacks@,
            final(self).threads@ == old(self).threads@,
    {
        let f = Function(self.functions.len());
        self.functions.push(ScriptFunction { turns });
        proof {
            assert forall|i: int| 0 <= i < self.threads@.len() implies self.thread_ok(
                #[trigger] self.threads@[i],
            ) by {
                assert(old(self).thread_ok(self.threads@[i]));
            }
        }
        f
    }

    /// Allocate a fresh, not yet started thread; the handle is the
    /// allocation's address.
    pub fn new_thread(&mut self) -> (t: Thread)
        requires
            old(self).wf(),
        ensures
            final(self).wf(),
            t.0 == old(self).threads@.len(),
            final(self).threads@.len() == old(self).threads@.len() + 1,
            forall|j: int|
                0 <= j < old(self).threads@.len() ==> final(self).threads@[j] == #[trigger] old(
                    self,
                ).threads@[j],
            fresh_thread_state(final(self).threads@[t.0 as int]),
            final(self).functions@ == old(self).functions@,
            final(self).callbacks@ == old(self).callbacks@,
    {
        let t = Thread(self.threads.len());
        self.threads.push(ThreadState {
            mode: ThreadMode::Stopped,
            body: None,
            pc: 0,
            resume_args: Vec::new(),
            outcome: None,
            yielded: false,
        });
        t
    }

    /// The current mode of a thread.
    pub fn thread_mode(&self, t: Thread) -> (m: ThreadMode)
        requires
            t.0 < self.threads@.len(),
        ensures
            m == self.threads@[t.0 as int].mode,
    {
        self.threads[t.0].mode
    }

    /// Bind a fresh thread to a function, leaving it suspended; fails if the
    /// thread was already started.
    pub fn start_suspended(&mut self, t: Thread, f: Function) -> (r: Result<(), ()>)
        requires
            old(self).wf(),
            t.0 < old(self).threads@.len(),
            f.0 < old(self).functions@.len(),
        ensures
            final(self).wf(),
            final(self).functions@ == old(self).functions@,
            final(self).callbacks@ == old(self).callbacks@,
            start_suspended_post(*old(self), *final(self), t, f, r),
    {
        if matches!(self.threads[t.0].mode, ThreadMode::Stopped) && self.threads[t.0].body.is_none()
        {
            let slot = &mut self.threads[t.0];
            slot.mode = ThreadMode::Suspended;
            slot.body = Some(f);
            slot.pc = 0;
            Ok(())
        } else {
            Err(())
        }
    }

    /// Hand resume arguments to a suspended thread and let it run; fails on
    /// every other mode.
    pub fn resume_thread(&mut self, t: Thread, args: Vec<Value>) -> (r: Result<(), ()>)
        requires
            old(self).wf(),
            t.0 < old(self).threads@.len(),
        ensures
            final(self).wf(),
            final(self).functions@ == old(self).functions@,
            final(self).callbacks@ == old(self).callbacks@,
            resume_thread_post(*old(self), *final(self), t, args@, r),
    {
        if matches!(self.threads[t.0].mode, ThreadMode::Suspended) {
            let slot = &mut self.threads[t.0];
            slot.mode = ThreadMode::Normal;
            slot.resume_args = args;
            Ok(())
        } else {
            Err(())
        }
    }

    /// Advance a thread in mode `Normal` by one activation of its body: the
    /// next turn runs and its outcome becomes the thread's pending result.
    pub fn step_thread(&mut self, t: Thread)
        requires
            old(self).wf(),
            t.0 < old(self).threads@.len(),
            old(self).threads@[t.0 as int].mode is Normal,
        ensures
            final(self).wf(),
            final(self).functions@ == old(self).functions@,
            final(self).callbacks@ == old(self).callbacks@,
            step_thread_post(*old(self), *final(self), t),
    {
        let f = match self.threads[t.0].body {
            Some(f) => f,
            None => {
                proof {
                    assert(old(self).thread_ok(old(self).threads@[t.0 as int]));
                }
                unreached()
            },
        };
        proof {
            assert(old(self).thread_ok(old(self).threads@[t.0 as int]));
        }
        let pc = self.threads[t.0].pc;
        if pc < self.functions[f.0].turns.len() {
            let (out, yielded): (Result<Vec<Value>, Value>, bool) = match &self.functions[f.0]
                .turns[pc] {
                Turn::Yield(vs) => (Ok(clone_values(vs)), true),
                Turn::Finish(vs) => (Ok(clone_values(vs)), false),
                Turn::Fail(e) => (Err(*e), false),
            };
            let slot = &mut self.threads[t.0];
            slot.mode = ThreadMode::Return;
            slot.outcome = Some(out);
            slot.yielded = yielded;
            slot.pc = pc + 1;
        } else {
            let slot = &mut self.threads[t.0];
            slot.mode = ThreadMode::Return;
            slot.outcome = Some(Ok(Vec::new()));
            slot.yielded = false;
        }
    }

    /// Extract a thread's pending result, exactly once: only valid in mode
    /// `Return`. Afterwards the thread is `Suspended` again if the result
    /// came from a yield, and `Stopped` otherwise.
    pub fn take_return(&mut self, t: Thread) -> (r: Option<Result<Vec<Value>, Value>>)
        requires
            old(self).wf(),
            t.0 < old(self).threads@.len(),
        ensures
            final(self).wf(),
            final(self).functions@ == old(self).functions@,
            final(self).callbacks@ == old(self).callbacks@,
            take_return_post(*old(self), *final(self), t, r),
    {
        if matches!(self.threads[t.0].mode, ThreadMode::Return) {
            proof {
                assert(old(self).thread_ok(old(self).threads@[t.0 as int]));
            }
            let slot = &mut self.threads[t.0];
            let r = slot.outcome.take();
            slot.mode = if slot.yielded {
                ThreadMode::Suspended
            } else {
                ThreadMode::Stopped
            };
            r
        } else {
            None
        }
    }
}

/// The state of a freshly allocated, not yet started thread.
pub open spec fn fresh_thread_state(ts: ThreadState) -> bool {
    &&& ts.mode is Stopped
    &&& ts.body is None
    &&& ts.pc == 0
    &&& ts.resume_args@ == Seq::<Value>::empty()
    &&& ts.outcome is None
    &&& !ts.yielded
}

/// All threads except `t` are unchanged, and the thread count is kept.
pub open spec fn other_threads_unchanged(h0: Heap, h1: Heap, t: Thread) -> bool {
    &&& h1.threads@.len() == h0.threads@.len()
    &&& forall|j: int|
        0 <= j < h0.threads@.len() && j != t.0 as int
            ==> h1.threads@[j] == #[trigger] h0.threads@[j]
}

/// What `start_suspended` does: on a fresh thread it binds the body and
/// suspends; on a started thread it fails and changes nothing.
pub open spec fn start_suspended_post(
    h0: Heap,
    h1: Heap,
    t: Thread,
    f: Function,
    r: Result<(), ()>,
) -> bool {
    let ts0 = h0.threads@[t.0 as int];
    let ts1 = h1.threads@[t.0 as int];
    &&& other_threads_unchanged(h0, h1, t)
    &&& if ts0.mode is Stopped && ts0.body is None {
        &&& r is Ok
        &&& ts1 == ThreadState { mode: ThreadMode::Suspended, body: Some(f), pc: 0, ..ts0 }
    } else {
        &&& r is Err
        &&& ts1 == ts0
    }
}

/// What `resume_thread` does: a suspended thread takes the arguments and
/// becomes runnable; any other mode is rejected unchanged.
pub open spec fn resume_thread_post(
    h0: Heap,
    h1: Heap,
    t: Thread,
    args: Seq<Value>,
    r: Result<(), ()>,
) -> bool {
    let ts0 = h0.threads@[t.0 as int];
    let ts1 = h1.threads@[t.0 as int];
    &&& other_threads_unchanged(h0, h1, t)
    &&& if ts0.mode is Suspended {
        &&& r is Ok
        &&& ts1.mode is Normal
        &&& ts1.resume_args@ == args
        &&& ts1.body == ts0.body
        &&& ts1.pc == ts0.pc
        &&& ts1.outcome == ts0.outcome
        &&& ts1.yielded == ts0.yielded
    } else {
        &&& r is Err
        &&& ts1 == ts0
    }
}

/// The outcome of running one turn of a thread's body: which pending result
/// it leaves, whether it counts as a yield, and the next program counter.
pub open spec fn step_thread_post(h0: Heap, h1: Heap, t: Thread) -> bool {
    let ts0 = h0.threads@[t.0 as int];
    let ts1 = h1.threads@[t.0 as int];
    let turns = h0.functions@[ts0.body.unwrap().0 as int].turns@;
    &&& other_threads_unchanged(h0, h1, t)
    &&& ts1.mode is Return
    &&& ts1.body == ts0.body
    &&& ts1.resume_args == ts0.resume_args
    &&& if ts0.pc < turns.len() {
        &&& ts1.pc == ts0.pc + 1
        &&& match turns[ts0.pc as int] {
            Turn::Yield(vs) => ts1.outcome matches Some(Ok(o)) && o@ == vs@ && ts1.yielded,
            Turn::Finish(vs) => ts1.outcome matches Some(Ok(o)) && o@ == vs@ && !ts1.yielded,
            Turn::Fail(e) => ts1.outcome == Some(Result::<Vec<Value>, Value>::Err(e))
                && !ts1.yielded,
        }
    } else {
        &&& ts1.pc == ts0.pc
        &&& ts1.outcome matches Some(Ok(o)) && o@ == Seq::<Value>::empty()
        &&& !ts1.yielded
    }
}

/// What `take_return` does: in mode `Return` it hands the pending result out
/// and moves the thread to `Suspended` (after a yield) or `Stopped`; in any
/// other mode it returns nothing and changes nothing.
pub open spec fn take_return_post(
    h0: Heap,
    h1: Heap,
    t: Thread,
    r: Option<Result<Vec<Value>, Value>>,
) -> bool {
    let ts0 = h0.threads@[t.0 as int];
    let ts1 = h1.threads@[t.0 as int];
    &&& other_threads_unchanged(h0, h1, t)
    &&& if ts0.mode is Return {
        &&& r == ts0.outcome
        &&& r is Some
        &&& ts1.outcome is None
        &&& ts1.mode == if ts0.yielded {
            ThreadMode::Suspended
        } else {
            ThreadMode::Stopped
        }
        &&& ts1.body == ts0.body
        &&& ts1.pc == ts0.pc
        &&& ts1.resume_args == ts0.resume_args
        &&& ts1.yielded == ts0.yielded
    } else {
        &&& r is None
        &&& ts1 == ts0
    }
}

/// Copy a vector of values; values are plain data.
pub fn clone_values(v: &Vec<Value>) -> (r: Vec<Value>)
    ensures
        r@ == v@,
{
    let mut r: Vec<Value> = Vec::new();
    let mut i: usize = 0;
    while i < v.len()
        invariant
            i <= v@.len(),
            r@ == v@.subrange(0, i as int),
        decreases v@.len() - i,
    {
        r.push(v[i]);
        i = i + 1;
    }
    proof {
        assert(r@ =~= v@);
    }
    r
}

/// Append a copy of `src` to `dst`.
pub fn push_values(dst: &mut Vec<Value>, src: &Vec<Value>)
    ensures
        final(dst)@ == old(dst)@ + src@,
{
    let mut i: usize = 0;
    while i < src.len()
        invariant
            i <= src@.len(),
            dst@ == old(dst)@ + src@.subrange(0, i as int),
        decreases src@.len() - i,
    {
        dst.push(src[i]);
        i = i + 1;
    }
    proof {
        assert(dst@ =~= old(dst)@ + src@);
    }
}

} // verus!
