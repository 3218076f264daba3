//! Exceptions, as plain values.

use vstd::prelude::*;

verus! {

/// The class of an exception.
#[derive(Clone, Copy, Debug, PartialEq, Eq, Structural)]
pub enum ExceptionKind {
    ValueError,
    KeyError,
    RuntimeError,
    /// An exception that the caller raised and keeps, under this number.
    Raised(usize),
}

/// An exception: its class and its message.
#[derive(Clone, Debug, PartialEq, Eq)]
pub struct Exception {
    pub kind: ExceptionKind,
    pub message: String,
}

/// What an exception says: its class and its message.
pub struct Fault {
    pub kind: ExceptionKind,
    pub message: Seq<char>,
}

impl View for Exception {
    type V = Fault;

    open spec fn view(&self) -> Fault {
        Fault { kind: self.kind, message: self.message@ }
    }
}

/// A `ValueError` with the given message.
pub open spec fn value_fault(message: Seq<char>) -> Fault {
    Fault { kind: ExceptionKind::ValueError, message }
}

/// A `KeyError` with the given message.
pub open spec fn key_fault(message: Seq<char>) -> Fault {
    Fault { kind: ExceptionKind::KeyError, message }
}

/// A `RuntimeError` with the given message.
pub open spec fn runtime_fault(message: Seq<char>) -> Fault {
    Fault { kind: ExceptionKind::RuntimeError, message }
}

/// A result with its exception taken for what it says.
pub open spec fn outcome<T>(r: Result<T, Exception>) -> Result<T, Fault> {
    match r {
        Ok(v) => Ok(v),
        Err(e) => Err(e@),
    }
}

impl Exception {
    /// A `ValueError` with the given message.
    pub fn value_error(message: String) -> (r: Exception)
        ensures
            r@ == value_fault(message@),
    {
        Exception { kind: ExceptionKind::ValueError, message }
    }

    /// A `KeyError` with the given message.
    pub fn key_error(message: String) -> (r: Exception)
        ensures
            r@ == key_fault(message@),
    {
        Exception { kind: ExceptionKind::KeyError, message }
    }

    /// A `RuntimeError` with the given message.
    pub fn runtime_error(message: String) -> (r: Exception)
        ensures
            r@ == runtime_fault(message@),
    {
        Exception { kind: ExceptionKind::RuntimeError, message }
    }

    /// The same exception again.
    pub fn again(&self) -> (r: Exception)
        ensures
            r == *self,
    {
        Exception { kind: self.kind, message: self.message.clone() }
    }
}

} // verus!
