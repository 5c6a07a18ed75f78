//! What the fixed native functions behind callbacks decide.
//!
//! A trampoline is handed to native code as the function to call; its
//! user data is the closure. The functions themselves belong to the
//! embedding. What they do with the closure is decided here.

use vstd::prelude::*;

verus! {

/// What a trampoline does with its closure.
#[derive(Debug, Clone, Copy, PartialEq, Eq, Structural)]
pub struct Trampolined {
    /// Whether the closure is invoked.
    pub invoke: bool,
    /// Whether the closure is released afterwards.
    pub release: bool,
    /// What native code is handed back.
    pub result: i32,
}

/// The destroy notification: a closure is invoked once and released; a
/// null closure is left alone.
pub fn destroy_trampoline(user_data: usize) -> (r: Trampolined)
    ensures
        r.invoke == (user_data != 0),
        r.release == (user_data != 0),
        r.result == 0,
{
    if user_data == 0 {
        return Trampolined { invoke: false, release: false, result: 0 };
    }
    Trampolined { invoke: true, release: true, result: 0 }
}

/// Whether a source function is invoked: it is unless its closure is
/// null, in which case the source is removed.
pub fn source_func_invoked(user_data: usize) -> (r: bool)
    ensures
        r == (user_data != 0),
{
    user_data != 0
}

/// The outcome of a source function whose closure answered `answer`; no
/// answer counts as false. A source that answers true is kept and called
/// again; one that answers false is removed and its closure released.
pub fn source_func_trampoline(answer: Option<bool>) -> (r: Trampolined)
    ensures
        r.invoke,
        r.release == !(answer == Some(true)),
        r.result == if answer == Some(true) {
            1i32
        } else {
            0i32
        },
{
    let result = match answer {
        Some(b) => b,
        None => false,
    };
    Trampolined {
        invoke: true,
        release: !result,
        result: if result {
            1
        } else {
            0
        },
    }
}

} // verus!
