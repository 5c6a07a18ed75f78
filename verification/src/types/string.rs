//! String descriptors.
//!
//! A string crosses the boundary as a pointer to NUL-terminated text. A
//! borrowed string stays the callee's; an unborrowed one becomes the
//! caller's to free.

use vstd::prelude::*;
use crate::error::{Error, Malformed};
use crate::js_ext::{boolean_or, get_boolean_or, JsValue};
use crate::types::{IntegerSign, IntegerSize, IntegerType};

verus! {

/// Descriptor of a native string.
#[derive(Debug, Clone, Copy, PartialEq, Eq)]
pub struct StringType {
    pub is_borrowed: bool,
    pub length: Option<usize>,
}

impl StringType {
    /// The length that a property names: a number, rounded toward zero
    /// and brought into the range of lengths.
    pub open spec fn length_of(value: Option<JsValue>) -> Option<usize> {
        match value {
            Some(JsValue::Number(n)) => Some(n.cast(0, usize::MAX as int) as usize),
            _ => None,
        }
    }

    /// What a scripting value reads as: an object whose property
    /// `borrowed` says whether the string stays the callee's, and whose
    /// property `length`, if it is a number, gives the length.
    pub open spec fn read(value: JsValue) -> Result<StringType, Error<'static>> {
        match value {
            JsValue::Object(object) => Ok(
                StringType {
                    is_borrowed: boolean_or(&object, "borrowed"@, false),
                    length: Self::length_of(object.find("length"@)),
                },
            ),
            _ => Err(Error::MalformedDescriptor { reason: Malformed::NotAnObject }),
        }
    }

    /// Reads the descriptor from a scripting value.
    pub fn from_js_value(value: &JsValue) -> (r: Result<Self, Error<'static>>)
        ensures
            r == Self::read(*value),
    {
        let obj = value.as_object()?;
        let is_borrowed = get_boolean_or(obj, "borrowed", false);
        let length = match obj.prop("length") {
            Some(JsValue::Number(n)) => {
                let wide = n.to_integer(
                    IntegerType { size: IntegerSize::_64, sign: IntegerSign::Unsigned },
                );
                if wide > usize::MAX as i128 {
                    Some(usize::MAX)
                } else {
                    Some(wide as usize)
                }
            },
            _ => None,
        };
        Ok(StringType { is_borrowed, length })
    }

    pub fn new(is_borrowed: bool) -> (r: Self)
        ensures
            r.is_borrowed == is_borrowed,
            r.length is None,
    {
        StringType { is_borrowed, length: None }
    }

    pub fn with_length(is_borrowed: bool, length: usize) -> (r: Self)
        ensures
            r.is_borrowed == is_borrowed,
            r.length == Some(length),
    {
        StringType { is_borrowed, length: Some(length) }
    }
}

} // verus!
