//! Floating-point descriptors: a width.

use vstd::prelude::*;
use crate::error::{Error, Malformed};
use crate::js_ext::{property_or_undefined, JsValue};
use crate::types::{IntegerSign, IntegerSize, IntegerType, NativeTag};

verus! {

/// Width of a native floating-point number in bits.
#[derive(Debug, Clone, Copy, PartialEq, Eq, Structural)]
pub enum FloatSize {
    _32,
    _64,
}

impl FloatSize {
    /// What a scripting value reads as: a number that, rounded toward
    /// zero, is 32 or 64.
    pub open spec fn read(value: JsValue) -> Result<FloatSize, Error<'static>> {
        match value {
            JsValue::Number(n) => if n.cast(0, 0xffff_ffff_ffff_ffff) == 32 {
                Ok(FloatSize::_32)
            } else if n.cast(0, 0xffff_ffff_ffff_ffff) == 64 {
                Ok(FloatSize::_64)
            } else {
                Err(Error::MalformedDescriptor { reason: Malformed::InvalidFloatSize })
            },
            _ => Err(Error::MalformedDescriptor { reason: Malformed::NotANumber }),
        }
    }

    /// Reads a width from a scripting value.
    pub fn from_js_value(value: &JsValue) -> (r: Result<Self, Error<'static>>)
        ensures
            r == Self::read(*value),
    {
        let size = match value {
            JsValue::Number(n) => n.to_integer(
                IntegerType { size: IntegerSize::_64, sign: IntegerSign::Unsigned },
            ),
            _ => return Err(Error::MalformedDescriptor { reason: Malformed::NotANumber }),
        };
        if size == 32 {
            Ok(FloatSize::_32)
        } else if size == 64 {
            Ok(FloatSize::_64)
        } else {
            Err(Error::MalformedDescriptor { reason: Malformed::InvalidFloatSize })
        }
    }
}

/// Descriptor of a native floating-point number.
#[derive(Debug, Clone, Copy, PartialEq, Eq, Structural)]
pub struct FloatType {
    pub size: FloatSize,
}

impl FloatType {
    pub fn new(size: FloatSize) -> (r: Self)
        ensures
            r.size == size,
    {
        FloatType { size }
    }

    /// What a scripting value reads as: an object whose property `size`
    /// names the width.
    pub open spec fn read(value: JsValue) -> Result<FloatType, Error<'static>> {
        match value {
            JsValue::Object(object) => match FloatSize::read(
                property_or_undefined(&object, "size"@),
            ) {
                Ok(size) => Ok(FloatType { size }),
                Err(e) => Err(e),
            },
            _ => Err(Error::MalformedDescriptor { reason: Malformed::NotAnObject }),
        }
    }

    /// Reads a floating-point descriptor from a scripting value.
    pub fn from_js_value(value: &JsValue) -> (r: Result<Self, Error<'static>>)
        ensures
            r == Self::read(*value),
    {
        let obj = value.as_object()?;
        let undefined = JsValue::Undefined;
        let size_prop = match obj.prop("size") {
            Some(v) => v,
            None => &undefined,
        };
        let size = FloatSize::from_js_value(size_prop)?;
        Ok(Self::new(size))
    }

    /// The native primitive of the described type.
    pub open spec fn spec_native_tag(self) -> NativeTag {
        match self.size {
            FloatSize::_32 => NativeTag::F32,
            FloatSize::_64 => NativeTag::F64,
        }
    }

    /// The native primitive of the described type.
    #[verifier::when_used_as_spec(spec_native_tag)]
    pub fn native_tag(self) -> (r: NativeTag)
        ensures
            r == self.spec_native_tag(),
    {
        match self.size {
            FloatSize::_32 => NativeTag::F32,
            FloatSize::_64 => NativeTag::F64,
        }
    }
}

} // verus!
