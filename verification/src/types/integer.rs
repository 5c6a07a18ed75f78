//! Integer descriptors: a width and a signedness.

use vstd::prelude::*;
use crate::error::{Error, Malformed};
use crate::js_ext::{property_or_undefined, JsValue};
use crate::number::Double;
use crate::types::NativeTag;

verus! {

/// Width of a native integer in bits.
#[derive(Debug, Clone, Copy, PartialEq, Eq, Structural)]
pub enum IntegerSize {
    _8,
    _16,
    _32,
    _64,
}

impl IntegerSize {
    /// The width that a number of bits names, the number rounded toward
    /// zero: 8, 16, 32 and 64 name widths.
    pub open spec fn of_bits(bits: int) -> Option<IntegerSize> {
        if bits == 8 {
            Some(IntegerSize::_8)
        } else if bits == 16 {
            Some(IntegerSize::_16)
        } else if bits == 32 {
            Some(IntegerSize::_32)
        } else if bits == 64 {
            Some(IntegerSize::_64)
        } else {
            None
        }
    }

    /// What a scripting value reads as: a number that names a width.
    pub open spec fn read(value: JsValue) -> Result<IntegerSize, Error<'static>> {
        match value {
            JsValue::Number(n) => match Self::of_bits(n.cast(0, 0xffff_ffff_ffff_ffff)) {
                Some(size) => Ok(size),
                None => Err(Error::MalformedDescriptor { reason: Malformed::InvalidIntegerSize }),
            },
            _ => Err(Error::MalformedDescriptor { reason: Malformed::NotANumber }),
        }
    }

    /// Reads a width from a scripting value.
    pub fn from_js_value(value: &JsValue) -> (r: Result<Self, Error<'static>>)
        ensures
            r == Self::read(*value),
    {
        let size = match value {
            JsValue::Number(n) => n.to_integer(
                IntegerType { size: IntegerSize::_64, sign: IntegerSign::Unsigned },
            ),
            _ => return Err(Error::MalformedDescriptor { reason: Malformed::NotANumber }),
        };
        if size == 8 {
            Ok(IntegerSize::_8)
        } else if size == 16 {
            Ok(IntegerSize::_16)
        } else if size == 32 {
            Ok(IntegerSize::_32)
        } else if size == 64 {
            Ok(IntegerSize::_64)
        } else {
            Err(Error::MalformedDescriptor { reason: Malformed::InvalidIntegerSize })
        }
    }
}

/// Signedness of a native integer.
#[derive(Debug, Clone, Copy, PartialEq, Eq, Structural)]
pub enum IntegerSign {
    Unsigned,
    Signed,
}

impl IntegerSign {
    /// What a scripting value reads as: the value says whether the
    /// integer is unsigned; a value that is no boolean says that it is.
    pub open spec fn read(value: JsValue) -> IntegerSign {
        match value {
            JsValue::Boolean(false) => IntegerSign::Signed,
            _ => IntegerSign::Unsigned,
        }
    }

    /// Reads a signedness from a scripting value.
    pub fn from_js_value(value: &JsValue) -> (r: Result<Self, Error<'static>>)
        ensures
            r == Ok::<IntegerSign, Error<'static>>(Self::read(*value)),
    {
        let is_unsigned = match value {
            JsValue::Boolean(b) => *b,
            _ => true,
        };
        Ok(
            if is_unsigned {
                IntegerSign::Unsigned
            } else {
                IntegerSign::Signed
            },
        )
    }
}

/// Descriptor of a native integer.
#[derive(Debug, Clone, Copy, PartialEq, Eq, Structural)]
pub struct IntegerType {
    pub size: IntegerSize,
    pub sign: IntegerSign,
}

impl IntegerType {
    pub fn new(size: IntegerSize, sign: IntegerSign) -> (r: Self)
        ensures
            r.size == size,
            r.sign == sign,
    {
        IntegerType { size, sign }
    }

    /// What a scripting value reads as: an object whose property `size`
    /// names the width and whose property `unsigned` the signedness.
    pub open spec fn read(value: JsValue) -> Result<IntegerType, Error<'static>> {
        match value {
            JsValue::Object(object) => match IntegerSize::read(
                property_or_undefined(&object, "size"@),
            ) {
                Ok(size) => Ok(
                    IntegerType {
                        size,
                        sign: IntegerSign::read(property_or_undefined(&object, "unsigned"@)),
                    },
                ),
                Err(e) => Err(e),
            },
            _ => Err(Error::MalformedDescriptor { reason: Malformed::NotAnObject }),
        }
    }

    /// Reads an integer descriptor from a scripting value.
    pub fn from_js_value(value: &JsValue) -> (r: Result<Self, Error<'static>>)
        ensures
            r == Self::read(*value),
    {
        let obj = value.as_object()?;
        let undefined = JsValue::Undefined;
        let size_prop = match obj.prop("size") {
            Some(v) => v,
            None => &undefined,
        };
        let sign_prop = match obj.prop("unsigned") {
            Some(v) => v,
            None => &undefined,
        };
        let size = IntegerSize::from_js_value(size_prop)?;
        let sign = IntegerSign::from_js_value(sign_prop)?;
        Ok(Self::new(size, sign))
    }

    /// The least value of the described type.
    pub open spec fn min(self) -> int {
        match self.sign {
            IntegerSign::Unsigned => 0,
            IntegerSign::Signed => match self.size {
                IntegerSize::_8 => -0x80,
                IntegerSize::_16 => -0x8000,
                IntegerSize::_32 => -0x8000_0000,
                IntegerSize::_64 => -0x8000_0000_0000_0000,
            },
        }
    }

    /// The greatest value of the described type.
    pub open spec fn max(self) -> int {
        match self.sign {
            IntegerSign::Unsigned => match self.size {
                IntegerSize::_8 => 0xff,
                IntegerSize::_16 => 0xffff,
                IntegerSize::_32 => 0xffff_ffff,
                IntegerSize::_64 => 0xffff_ffff_ffff_ffff,
            },
            IntegerSign::Signed => match self.size {
                IntegerSize::_8 => 0x7f,
                IntegerSize::_16 => 0x7fff,
                IntegerSize::_32 => 0x7fff_ffff,
                IntegerSize::_64 => 0x7fff_ffff_ffff_ffff,
            },
        }
    }

    /// Whether `v` is a value of the described type.
    pub open spec fn holds(self, v: int) -> bool {
        self.min() <= v <= self.max()
    }

    /// The native primitive of the described type.
    pub open spec fn spec_native_tag(self) -> NativeTag {
        match (self.size, self.sign) {
            (IntegerSize::_8, IntegerSign::Unsigned) => NativeTag::U8,
            (IntegerSize::_8, IntegerSign::Signed) => NativeTag::I8,
            (IntegerSize::_16, IntegerSign::Unsigned) => NativeTag::U16,
            (IntegerSize::_16, IntegerSign::Signed) => NativeTag::I16,
            (IntegerSize::_32, IntegerSign::Unsigned) => NativeTag::U32,
            (IntegerSize::_32, IntegerSign::Signed) => NativeTag::I32,
            (IntegerSize::_64, IntegerSign::Unsigned) => NativeTag::U64,
            (IntegerSize::_64, IntegerSign::Signed) => NativeTag::I64,
        }
    }

    /// The native primitive of the described type.
    #[verifier::when_used_as_spec(spec_native_tag)]
    pub fn native_tag(self) -> (r: NativeTag)
        ensures
            r == self.spec_native_tag(),
    {
        match (self.size, self.sign) {
            (IntegerSize::_8, IntegerSign::Unsigned) => NativeTag::U8,
            (IntegerSize::_8, IntegerSign::Signed) => NativeTag::I8,
            (IntegerSize::_16, IntegerSign::Unsigned) => NativeTag::U16,
            (IntegerSize::_16, IntegerSign::Signed) => NativeTag::I16,
            (IntegerSize::_32, IntegerSign::Unsigned) => NativeTag::U32,
            (IntegerSize::_32, IntegerSign::Signed) => NativeTag::I32,
            (IntegerSize::_64, IntegerSign::Unsigned) => NativeTag::U64,
            (IntegerSize::_64, IntegerSign::Signed) => NativeTag::I64,
        }
    }
}

} // verus!
