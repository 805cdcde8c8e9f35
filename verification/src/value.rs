//! Runtime values of the interpreted language.
//!
//! A `Function` value does not own its declaration or its captured scope: it
//! holds the index of the declaration in the interpreter's declaration store
//! and the index of the environment that was current when the declaration
//! executed (the closure).

use vstd::prelude::*;
use crate::number::num_eq_bits;
use crate::token::{bytes_equal, clone_bytes};

verus! {

/// A user-defined function value: declaration store index and closure
/// environment index.
#[derive(Clone, Copy, PartialEq, Eq, Structural)]
pub struct Function {
    pub declaration: usize,
    pub closure: usize,
}

/// A built-in function value.
pub struct NativeFunction {
    pub arity: u8,
    pub name: Vec<u8>,
}

/// Mathematical image of a `NativeFunction`.
#[verifier::ext_equal]
pub ghost struct NativeFunctionV {
    pub arity: u8,
    pub name: Seq<u8>,
}

impl View for NativeFunction {
    type V = NativeFunctionV;

    open spec fn view(&self) -> NativeFunctionV {
        NativeFunctionV { arity: self.arity, name: self.name@ }
    }
}

/// A runtime value. Numbers are IEEE-754 doubles, held as their bit
/// patterns.
pub enum Value {
    Nil,
    Boolean(bool),
    Number(u64),
    Str(Vec<u8>),
    Function(Function),
    NativeFunction(NativeFunction),
}

/// Mathematical image of a `Value`.
#[verifier::ext_equal]
pub ghost enum ValueV {
    Nil,
    Boolean(bool),
    Number(u64),
    Str(Seq<u8>),
    Function(Function),
    NativeFunction(NativeFunctionV),
}

impl View for Value {
    type V = ValueV;

    open spec fn view(&self) -> ValueV {
        match self {
            Value::Nil => ValueV::Nil,
            Value::Boolean(b) => ValueV::Boolean(*b),
            Value::Number(n) => ValueV::Number(*n),
            Value::Str(s) => ValueV::Str(s@),
            Value::Function(f) => ValueV::Function(*f),
            Value::NativeFunction(f) => ValueV::NativeFunction(f@),
        }
    }
}

/// Truthiness: nil and false are falsy; every other value, zero and the
/// empty string included, is truthy.
pub open spec fn truthy(v: ValueV) -> bool {
    match v {
        ValueV::Nil => false,
        ValueV::Boolean(b) => b,
        _ => true,
    }
}

/// Equality of the language: structural within a kind, false across kinds,
/// IEEE-754 for numbers (so NaN differs from itself), false for functions.
pub open spec fn val_eq(a: ValueV, b: ValueV) -> bool {
    match (a, b) {
        (ValueV::Boolean(l), ValueV::Boolean(r)) => l == r,
        (ValueV::Number(l), ValueV::Number(r)) => num_eq_bits(l, r),
        (ValueV::Str(l), ValueV::Str(r)) => l == r,
        (ValueV::Nil, ValueV::Nil) => true,
        _ => false,
    }
}

impl Value {
    /// Whether this value counts as true in a condition.
    pub fn is_truthy(&self) -> (r: bool)
        ensures
            r == truthy(self@),
    {
        match self {
            Value::Nil => false,
            Value::Boolean(b) => *b,
            _ => true,
        }
    }

    /// Whether this value and `other` are equal in the language's sense.
    pub fn equals(&self, other: &Value) -> (r: bool)
        ensures
            r == val_eq(self@, other@),
    {
        match (self, other) {
            (Value::Boolean(l), Value::Boolean(r)) => *l == *r,
            (Value::Number(l), Value::Number(r)) => crate::number::number_eq(*l, *r),
            (Value::Str(l), Value::Str(r)) => bytes_equal(l.as_slice(), r.as_slice()),
            (Value::Nil, Value::Nil) => true,
            _ => false,
        }
    }

    /// Structural copy; the copy denotes the same value.
    pub fn duplicate(&self) -> (r: Value)
        ensures
            r@ == self@,
    {
        match self {
            Value::Nil => Value::Nil,
            Value::Boolean(b) => Value::Boolean(*b),
            Value::Number(n) => Value::Number(*n),
            Value::Str(s) => Value::Str(clone_bytes(s)),
            Value::Function(f) => Value::Function(*f),
            Value::NativeFunction(f) => Value::NativeFunction(NativeFunction {
                arity: f.arity,
                name: clone_bytes(&f.name),
            }),
        }
    }
}

/// Structural copy of an optional value.
pub fn duplicate_opt_value(v: &Option<Value>) -> (r: Option<Value>)
    ensures
        match (v, &r) {
            (Some(a), Some(b)) => a@ == b@,
            (None, None) => true,
            _ => false,
        },
{
    match v {
        Some(x) => Some(x.duplicate()),
        None => None,
    }
}

} // verus!
