//! The address behind a handle, for debugging and introspection.

use vstd::prelude::*;
use crate::error::{Error, Subject};
use crate::managed::{HandleMap, NativeHandle};
use crate::number::Double;
use crate::numeric::int_number;

verus! {

/// The address of the object behind a handle, as a scripting number. A
/// handle that no longer resolves is refused.
pub fn get_object_id(handles: &HandleMap, object_id: NativeHandle) -> (r: Result<Double, Error<'static>>)
    ensures
        handles.ptr_of(object_id) matches Some(ptr) ==> r == Ok::<Double, Error<'static>>(
            int_number(ptr as int),
        ),
        handles.ptr_of(object_id) is None ==> r == Err::<Double, Error<'static>>(
            Error::GarbageCollected { subject: Subject::Object, index: None },
        ),
{
    match handles.get_ptr(object_id) {
        Some(ptr) => Ok(Double::from_u64(ptr as u64)),
        None => Err(Error::GarbageCollected { subject: Subject::Object, index: None }),
    }
}

} // verus!
