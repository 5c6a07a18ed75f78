//! Descriptors of reference-counted objects.

use vstd::prelude::*;
use crate::error::{Error, Malformed};
use crate::js_ext::{boolean_or, get_boolean_or, JsValue};

verus! {

/// Descriptor of an opaque reference-counted object.
#[derive(Debug, Clone, Copy, PartialEq, Eq, Structural)]
pub struct GObjectType {
    pub is_borrowed: bool,
}

impl GObjectType {
    /// What a scripting value reads as: an object whose property
    /// `borrowed` says whether the value stays the callee's; it does not
    /// unless the property is a boolean that says so.
    pub open spec fn read(value: JsValue) -> Result<GObjectType, Error<'static>> {
        match value {
            JsValue::Object(object) => Ok(
                GObjectType { is_borrowed: boolean_or(&object, "borrowed"@, false) },
            ),
            _ => Err(Error::MalformedDescriptor { reason: Malformed::NotAnObject }),
        }
    }

    /// Reads the descriptor from a scripting value.
    pub fn from_js_value(value: &JsValue) -> (r: Result<Self, Error<'static>>)
        ensures
            r == Self::read(*value),
    {
        let obj = value.as_object()?;
        let is_borrowed = get_boolean_or(obj, "borrowed", false);
        Ok(Self::new(is_borrowed))
    }

    pub fn new(is_borrowed: bool) -> (r: Self)
        ensures
            r.is_borrowed == is_borrowed,
    {
        GObjectType { is_borrowed }
    }
}

} // verus!
