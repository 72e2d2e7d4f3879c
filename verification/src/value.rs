//! The plain values that flow over the operand stack.
//!
//! The surrounding VM's full value model is an external collaborator; this
//! module holds only what the suspension core reads of it: the value kinds it
//! must distinguish, and the handles (arena indices standing for addresses of
//! heap allocations) by which functions and coroutine threads are referenced.

use vstd::prelude::*;

verus! {

/// A handle to a script function held in the heap: the index of its
/// allocation.
#[derive(Clone, Copy, Debug, PartialEq, Eq, Structural)]
pub struct Function(pub usize);

/// A handle to a coroutine thread held in the heap: the index of its
/// allocation.
#[derive(Clone, Copy, Debug, PartialEq, Eq, Structural)]
pub struct Thread(pub usize);

/// A value as seen by the suspension core.
///
/// Strings that this core produces (status names, error messages, type
/// names) are all fixed texts, so a string value carries a borrowed static
/// text.
#[derive(Clone, Copy, Debug, PartialEq, Eq)]
pub enum Value {
    Nil,
    Boolean(bool),
    Integer(i64),
    Str(&'static str),
    Function(Function),
    Thread(Thread),
}

/// The name of a value's kind, as reported in type errors.
pub open spec fn kind_name_spec(v: Value) -> Seq<char> {
    match v {
        Value::Nil => "nil"@,
        Value::Boolean(_) => "boolean"@,
        Value::Integer(_) => "integer"@,
        Value::Str(_) => "string"@,
        Value::Function(_) => "function"@,
        Value::Thread(_) => "thread"@,
    }
}

impl Value {
    /// The name of this value's kind, as reported in type errors.
    pub fn kind_name(self) -> (r: &'static str)
        ensures
            r@ == kind_name_spec(self),
    {
        match self {
            Value::Nil => "nil",
            Value::Boolean(_) => "boolean",
            Value::Integer(_) => "integer",
            Value::Str(_) => "string",
            Value::Function(_) => "function",
            Value::Thread(_) => "thread",
        }
    }
}

} // verus!
