//! Descriptors of callbacks.
//!
//! A callback is handed to native code as a trampoline: a fixed native
//! function that forwards to a closure. The trampoline kind fixes which
//! extra pointers go with the function pointer, and in which order.

use vstd::prelude::*;
use crate::types::Type;

verus! {

/// The kind of trampoline behind a callback.
#[derive(Debug, Clone, Copy, PartialEq, Eq, Structural)]
pub enum CallbackTrampoline {
    /// The closure itself is the argument.
    Closure,
    /// Completion of an asynchronous operation: trampoline, then closure.
    AsyncReady,
    /// Destroy notification: closure, then trampoline.
    Destroy,
    /// Drawing function: trampoline, closure, then the function that
    /// releases the closure.
    DrawFunc,
}

/// Descriptor of a callback.
#[derive(Debug, PartialEq, Eq)]
pub struct CallbackType {
    pub trampoline: CallbackTrampoline,
    pub arg_types: Option<Vec<Type>>,
    pub return_type: Option<Box<Type>>,
    pub source_type: Option<Box<Type>>,
    pub result_type: Option<Box<Type>>,
}

impl CallbackType {
    /// A callback of the given kind with no declared signature.
    pub fn new(trampoline: CallbackTrampoline) -> (r: Self)
        ensures
            r.trampoline == trampoline,
            r.arg_types is None,
            r.return_type is None,
            r.source_type is None,
            r.result_type is None,
    {
        CallbackType {
            trampoline,
            arg_types: None,
            return_type: None,
            source_type: None,
            result_type: None,
        }
    }
}

} // verus!
