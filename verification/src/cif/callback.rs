//! The bridge from native callbacks into the scripting side.
//!
//! A callback is a closure that native code invokes on the native-loop
//! thread. One invocation goes through four steps: the arguments are
//! converted; the call is queued for the scripting thread; the
//! native-loop thread waits for the answer, running its own pending tasks
//! all the while; and the answer is converted back. Native code cannot
//! take a failure, so none of the steps gives one: whatever goes wrong
//! ends in the default that fits the expected result.
//!
//! The steps that touch the closure, the queue and the channel belong to
//! the embedding. What is decided at each step is decided here.

use vstd::prelude::*;
use crate::cif::{OwnedPtr, Storage, TrampolineCallbackValue, Value, ValueView};
use crate::error::Error;
use crate::types::{CallbackTrampoline, CallbackType, Type};
use crate::value::from_glib::{
    are_all, converts_all, from_glib, typed_args, untyped_args, ConvertedView, GValueView,
};
use crate::value::{Callback, Converted, GValue};

verus! {

/// Who owns a closure once its pointer has been handed to native code.
#[derive(Debug, Clone, Copy, PartialEq, Eq, Structural)]
pub enum ClosureOwnership {
    /// A reference was added for native code; the encoded value keeps
    /// its own and releases it when it is dropped.
    Retained,
    /// Native code owns the closure and releases it through its destroy
    /// notification.
    Transferred,
}

/// How a call is put into the queue of the scripting thread.
#[derive(Debug, Clone, Copy, PartialEq, Eq, Structural)]
pub enum Enqueue {
    /// Queue the call and wake the scripting event loop.
    QueueWithWakeup,
    /// Queue the call only: the scripting thread is blocked waiting on
    /// the native-loop thread and drains the queue itself.
    Queue,
}

/// What a non-blocking look at the result channel found.
#[derive(Debug, PartialEq, Eq)]
pub enum Polled {
    /// The scripting side has answered: with a result, or with a failure.
    Ready(Result<crate::value::Value, ()>),
    /// No answer yet.
    Empty,
    /// The scripting side has gone away.
    Disconnected,
}

/// What the waiting thread does next.
#[derive(Debug, PartialEq, Eq)]
pub enum Wait {
    /// Stop waiting, with this outcome.
    Finish(Result<crate::value::Value, ()>),
    /// Yield the thread, run pending tasks and look again.
    Yield,
}

/// What a closure does once it has looked at its arguments.
#[derive(Debug, PartialEq, Eq)]
pub enum Invocation {
    /// Call the scripting function with these arguments and wait for it.
    /// `capture_result` says whether its result is wanted.
    Call { args: Vec<Converted>, capture_result: bool },
    /// Answer native code at once, with this value or with none.
    Reply(Option<GValue>),
}

/// What the arguments of a callback convert to: under the declared
/// types where there are any, else each by its own kind.
pub open spec fn glib_args(args: Seq<GValue>, arg_types: Option<Vec<Type>>) -> Result<
    Seq<ConvertedView>,
    Error<'static>,
> {
    match arg_types {
        Some(types) => typed_args(args, types@),
        None => untyped_args(args),
    }
}

/// Converts the arguments of a callback.
pub fn convert_glib_args(args: &Vec<GValue>, arg_types: &Option<Vec<Type>>) -> (r: Result<
    Vec<Converted>,
    Error<'static>,
>)
    ensures
        converts_all(glib_args(args@, *arg_types), r),
{
    match arg_types {
        Some(types) => crate::value::Value::from_typed_glib_values(args, types),
        None => crate::value::Value::from_untyped_glib_values(args),
    }
}

/// The type that a closure returns: the declared one, else `Undefined`.
pub open spec fn return_type(type_: CallbackType) -> Type {
    match type_.return_type {
        Some(t) => *t,
        None => Type::Undefined,
    }
}

/// Argument `i` of the completion of an asynchronous operation under its
/// declared type: null where there is no such argument, where no type is
/// declared for it, and where it does not convert.
pub open spec fn async_arg(args: Seq<GValue>, i: int, declared: Option<Box<Type>>) -> ConvertedView {
    if i < args.len() {
        match declared {
            Some(t) => match from_glib(args[i]@, *t) {
                Ok(v) => v,
                Err(_) => ConvertedView::Null,
            },
            None => ConvertedView::Null,
        }
    } else {
        ConvertedView::Null
    }
}

/// The type that is declared for argument `index` of what a closure
/// calls with: for the completion of an asynchronous operation the source
/// type and the result type; for the other kinds the argument types in
/// their order.
pub open spec fn declared(type_: CallbackType, index: int) -> Option<Type> {
    match type_.trampoline {
        CallbackTrampoline::AsyncReady => if index == 0 {
            match type_.source_type {
                Some(t) => Some(*t),
                None => None,
            }
        } else if index == 1 {
            match type_.result_type {
                Some(t) => Some(*t),
                None => None,
            }
        } else {
            None
        },
        _ => match type_.arg_types {
            Some(types) => if 0 <= index < types@.len() {
                Some(types@[index])
            } else {
                None
            },
            None => None,
        },
    }
}

/// Finds the type that is declared for an argument of a call.
pub fn declared_type(type_: &CallbackType, index: usize) -> (r: Option<&Type>)
    ensures
        declared(*type_, index as int) matches Some(t) ==> r == Some(&t),
        declared(*type_, index as int) is None ==> r is None,
{
    match type_.trampoline {
        CallbackTrampoline::AsyncReady => {
            if index == 0 {
                match &type_.source_type {
                    Some(t) => Some(&**t),
                    None => None,
                }
            } else if index == 1 {
                match &type_.result_type {
                    Some(t) => Some(&**t),
                    None => None,
                }
            } else {
                None
            }
        },
        _ => match &type_.arg_types {
            Some(types) => {
                if index < types.len() {
                    Some(&types[index])
                } else {
                    None
                }
            },
            None => None,
        },
    }
}

/// Whether a closure of the given kind wants the result of the scripting
/// function: only a plain closure does.
pub open spec fn captures_result(trampoline: CallbackTrampoline) -> bool {
    trampoline is Closure
}

/// What native code is answered for the outcome of a call. A plain
/// closure answers with the result converted for its return type, and
/// with the default for that type where the call failed or the scripting
/// side went away. Every other kind answers with nothing.
pub open spec fn reply(type_: CallbackType, outcome: Result<crate::value::Value, ()>) -> Option<
    GValueView,
> {
    match type_.trampoline {
        CallbackTrampoline::Closure => match outcome {
            Ok(value) => value.spec_into_glib_value_with_default(Some(&return_type(type_))),
            Err(_) => crate::value::Value::Undefined.spec_into_glib_value_with_default(
                Some(&return_type(type_)),
            ),
        },
        _ => None,
    }
}

/// Whether `r` is the reply `expected`.
pub open spec fn replies(expected: Option<GValueView>, r: Option<GValue>) -> bool {
    match expected {
        Some(view) => r matches Some(v) && v@ == view,
        None => r is None,
    }
}

/// Whether `r` is what a closure does with the given arguments.
///
/// A plain closure and a drawing function convert their arguments and
/// call; where an argument does not convert they answer at once, the
/// closure with the default for its return type and the drawing function
/// with nothing. The completion of an asynchronous operation calls with
/// two arguments, the source and the result, whatever it was given. A
/// destroy notification calls without arguments.
pub open spec fn invokes(type_: CallbackType, args: Seq<GValue>, r: Invocation) -> bool {
    match type_.trampoline {
        CallbackTrampoline::Closure => match glib_args(args, type_.arg_types) {
            Ok(views) => r matches Invocation::Call { args: items, capture_result } && are_all(
                items@,
                views,
            ) && capture_result,
            Err(_) => r matches Invocation::Reply(v) && replies(
                reply(type_, Err::<crate::value::Value, ()>(())),
                v,
            ),
        },
        CallbackTrampoline::DrawFunc => match glib_args(args, type_.arg_types) {
            Ok(views) => r matches Invocation::Call { args: items, capture_result } && are_all(
                items@,
                views,
            ) && !capture_result,
            Err(_) => r == Invocation::Reply(None),
        },
        CallbackTrampoline::AsyncReady => r matches Invocation::Call { args: items, capture_result }
            && !capture_result && items@.len() == 2 && items@[0].is(
            async_arg(args, 0, type_.source_type),
        ) && items@[1].is(async_arg(args, 1, type_.result_type)),
        CallbackTrampoline::Destroy => r matches Invocation::Call { args: items, capture_result }
            && !capture_result && items@.len() == 0,
    }
}

fn convert_async_arg(args: &Vec<GValue>, i: usize, declared: &Option<Box<Type>>) -> (r: Converted)
    ensures
        r.is(async_arg(args@, i as int, *declared)),
{
    if i >= args.len() {
        return Converted::Value(crate::value::Value::Null);
    }
    match declared {
        Some(t) => match crate::value::Value::from_glib_value(&args[i], &**t) {
            Ok(converted) => converted,
            Err(_) => Converted::Value(crate::value::Value::Null),
        },
        None => Converted::Value(crate::value::Value::Null),
    }
}

/// Decides, for a closure that native code has just invoked, what to do
/// with its arguments.
pub fn closure_invoke(type_: &CallbackType, args: &Vec<GValue>) -> (r: Invocation)
    ensures
        invokes(*type_, args@, r),
{
    match type_.trampoline {
        CallbackTrampoline::Closure => match convert_glib_args(args, &type_.arg_types) {
            Ok(items) => Invocation::Call { args: items, capture_result: true },
            Err(_) => Invocation::Reply(closure_reply(type_, Err(()))),
        },
        CallbackTrampoline::DrawFunc => match convert_glib_args(args, &type_.arg_types) {
            Ok(items) => Invocation::Call { args: items, capture_result: false },
            Err(_) => Invocation::Reply(None),
        },
        CallbackTrampoline::AsyncReady => {
            let source_value = convert_async_arg(args, 0, &type_.source_type);
            let result_value = convert_async_arg(args, 1, &type_.result_type);
            let mut items: Vec<Converted> = Vec::new();
            items.push(source_value);
            items.push(result_value);
            Invocation::Call { args: items, capture_result: false }
        },
        CallbackTrampoline::Destroy => Invocation::Call {
            args: Vec::new(),
            capture_result: false,
        },
    }
}

/// Converts the outcome of a call into what native code is answered.
pub fn closure_reply(type_: &CallbackType, outcome: Result<crate::value::Value, ()>) -> (r: Option<
    GValue,
>)
    ensures
        replies(reply(*type_, outcome), r),
{
    match type_.trampoline {
        CallbackTrampoline::Closure => {
            let undefined = Type::Undefined;
            let declared: &Type = match &type_.return_type {
                Some(t) => &**t,
                None => &undefined,
            };
            match outcome {
                Ok(value) => value.into_glib_value_with_default(Some(declared)),
                Err(_) => crate::value::Value::Undefined.into_glib_value_with_default(
                    Some(declared),
                ),
            }
        },
        _ => None,
    }
}

/// How a call is queued: a scripting thread that is blocked waiting on
/// the native-loop thread is not woken, since it drains the queue itself
/// while it waits; any other is.
pub fn invoke_and_wait_for_js_result(js_waiting: bool) -> (r: Enqueue)
    ensures
        r == if js_waiting {
            Enqueue::Queue
        } else {
            Enqueue::QueueWithWakeup
        },
{
    if js_waiting {
        Enqueue::Queue
    } else {
        Enqueue::QueueWithWakeup
    }
}

/// One round of the wait for an answer, after the pending tasks of the
/// waiting thread have been run: an answer ends the wait; so does the
/// loss of the scripting side, which counts as a failed call; no answer
/// yet means yield and look again.
pub fn wait_for_js_result(polled: Polled) -> (r: Wait)
    ensures
        r == match polled {
            Polled::Ready(outcome) => Wait::Finish(outcome),
            Polled::Empty => Wait::Yield,
            Polled::Disconnected => Wait::Finish(Err::<crate::value::Value, ()>(())),
        },
{
    match polled {
        Polled::Ready(outcome) => Wait::Finish(outcome),
        Polled::Empty => Wait::Yield,
        Polled::Disconnected => Wait::Finish(Err(())),
    }
}

/// Who owns the closure of a callback of the given kind. A plain closure
/// is invoked while the call that it was passed to runs, so the encoded
/// value keeps it. The other kinds may fire after that call has
/// returned, so native code takes them over.
pub fn closure_ownership(trampoline: CallbackTrampoline) -> (r: ClosureOwnership)
    ensures
        r == if trampoline is Closure {
            ClosureOwnership::Retained
        } else {
            ClosureOwnership::Transferred
        },
{
    match trampoline {
        CallbackTrampoline::Closure => ClosureOwnership::Retained,
        _ => ClosureOwnership::Transferred,
    }
}

/// The call-ready value of a callback whose closure has been built at
/// `closure_ptr`: for a plain closure the closure itself, as a pointer
/// that is owed a release; for the other kinds the trampoline and its
/// companions in order.
pub fn build_trampoline_callback(
    trampoline: CallbackTrampoline,
    closure_ptr: usize,
    trampoline_ptr: usize,
    unref_closure_ptr: usize,
) -> (r: Value)
    ensures
        trampoline is Closure ==> r@ == ValueView::OwnedPtr(crate::cif::StorageView::Unit) && (
        r matches Value::OwnedPtr(owned) && owned.ptr == closure_ptr),
        !(trampoline is Closure) ==> r@ == (ValueView::TrampolineCallback {
            closure: closure_ptr,
            ffi_args: TrampolineCallbackValue::ordered_args(
                trampoline,
                trampoline_ptr,
                closure_ptr,
                unref_closure_ptr,
            ),
        }),
{
    match trampoline {
        CallbackTrampoline::Closure => Value::OwnedPtr(OwnedPtr::new(Storage::Unit, closure_ptr)),
        _ => Value::TrampolineCallback(
            TrampolineCallbackValue::new(
                trampoline,
                trampoline_ptr,
                closure_ptr,
                unref_closure_ptr,
            ),
        ),
    }
}

} // verus!
