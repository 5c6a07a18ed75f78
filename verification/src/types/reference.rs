//! Descriptors of output parameters: a pointer through which the callee
//! writes a value of the inner type.

use vstd::prelude::*;
use crate::error::{Error, Malformed};
use crate::js_ext::JsValue;
use crate::types::Type;

verus! {

/// Descriptor of an output parameter.
#[derive(Debug, PartialEq, Eq)]
pub struct RefType {
    pub inner_type: Box<Type>,
}

impl RefType {
    /// Reads the descriptor of an output parameter of `inner_type` from a
    /// scripting value, which has to be an object.
    pub fn from_js_value(value: &JsValue, inner_type: Type) -> (r: Result<Self, Error<'static>>)
        ensures
            value is Object ==> (r matches Ok(t) && *t.inner_type == inner_type),
            !(value is Object) ==> r == Err::<RefType, Error<'static>>(
                Error::MalformedDescriptor { reason: Malformed::NotAnObject },
            ),
    {
        let _obj = value.as_object()?;
        Ok(Self::new(inner_type))
    }

    pub fn new(inner_type: Type) -> (r: Self)
        ensures
            *r.inner_type == inner_type,
    {
        RefType { inner_type: Box::new(inner_type) }
    }
}

} // verus!
