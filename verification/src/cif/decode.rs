//! Decoding: from a native value and its descriptor to a scripting value.

use vstd::prelude::*;
use crate::cif::{Value, ValueView};
use crate::error::{Error, Operation, Subject};
use crate::numeric::number_of;
use crate::types::Type;
use crate::value::from_glib::{converts, ConvertedView};
use crate::value::{Acquire, Converted};

verus! {

/// The address that a native value holds, if it is a borrowed pointer.
pub open spec fn pointer_of(value: ValueView) -> Option<usize> {
    match value {
        ValueView::Ptr(p) => Some(p),
        _ => None,
    }
}

/// What a native pointer decodes to: null for the null address, else
/// what `found` makes of the address. A value that is no pointer is
/// refused.
pub open spec fn decode_pointer(value: ValueView, subject: Subject, found: ConvertedView) -> Result<
    ConvertedView,
    Error<'static>,
> {
    match pointer_of(value) {
        Some(ptr) => if ptr == 0 {
            Ok(ConvertedView::Null)
        } else {
            Ok(found)
        },
        None => Err(Error::NotPointer { subject, native: value.shown() }),
    }
}

/// What a native value decodes to under a descriptor.
///
/// A number comes from a numeric primitive, whichever it is. A boolean
/// comes from an unsigned byte and is true unless the byte is zero. A
/// string, an object, a boxed or a fundamental value comes from a
/// pointer: null gives null; any other address names text to read or an
/// object to acquire, owned by the caller unless the descriptor says
/// that it is borrowed. The descriptors `Null` and `Undefined` give null
/// whatever the bits.
pub open spec fn decode(ty: Type, value: ValueView) -> Result<ConvertedView, Error<'static>> {
    match ty {
        Type::Integer(_) | Type::Float(_) => match number_of(value) {
            Some(n) => Ok(ConvertedView::Number(n)),
            None => Err(Error::NotNumeric { native: value.shown() }),
        },
        Type::Boolean => match value {
            ValueView::U8(b) => Ok(ConvertedView::Boolean(b != 0)),
            _ => Err(Error::NotNumeric { native: value.shown() }),
        },
        Type::String(t) => decode_pointer(
            value,
            Subject::String,
            ConvertedView::Text { ptr: pointer_of(value)->0, owned: !t.is_borrowed },
        ),
        Type::GObject(t) => decode_pointer(
            value,
            Subject::GObject,
            ConvertedView::Object(
                Acquire::GObject { ptr: pointer_of(value)->0, owned: !t.is_borrowed },
            ),
        ),
        Type::Boxed(t) => decode_pointer(
            value,
            Subject::Boxed,
            ConvertedView::Object(
                Acquire::Boxed { ptr: pointer_of(value)->0, value_type: None, owned: !t.is_borrowed },
            ),
        ),
        Type::Fundamental(t) => decode_pointer(
            value,
            Subject::Fundamental,
            ConvertedView::Object(
                Acquire::Fundamental { ptr: pointer_of(value)->0, owned: !t.is_borrowed },
            ),
        ),
        Type::Null | Type::Undefined => Ok(ConvertedView::Null),
        Type::Array(_) | Type::Ref(_) | Type::Callback(_) | Type::Struct(_) => Err(
            Error::UnsupportedType { operation: Operation::Decode },
        ),
    }
}

impl Value {
    /// The scripting number of a numeric primitive.
    pub fn to_number(&self) -> (r: Result<crate::number::Double, Error<'static>>)
        ensures
            number_of(self@) matches Some(n) ==> r == Ok::<crate::number::Double, Error<'static>>(n),
            number_of(self@) is None ==> r == Err::<crate::number::Double, Error<'static>>(
                Error::NotNumeric { native: self@.shown() },
            ),
    {
        match self {
            Value::I8(v) => Ok(crate::number::Double::from_i64(*v as i64)),
            Value::U8(v) => Ok(crate::number::Double::from_u64(*v as u64)),
            Value::I16(v) => Ok(crate::number::Double::from_i64(*v as i64)),
            Value::U16(v) => Ok(crate::number::Double::from_u64(*v as u64)),
            Value::I32(v) => Ok(crate::number::Double::from_i64(*v as i64)),
            Value::U32(v) => Ok(crate::number::Double::from_u64(*v as u64)),
            Value::I64(v) => Ok(crate::number::Double::from_i64(*v)),
            Value::U64(v) => Ok(crate::number::Double::from_u64(*v)),
            Value::F32(v) => Ok(v.to_double()),
            Value::F64(v) => Ok(*v),
            _ => Err(Error::NotNumeric { native: self.shown() }),
        }
    }
}

impl Type {
    /// Decodes a native value.
    pub fn decode(&self, ffi_value: &Value) -> (r: Result<Converted, Error<'static>>)
        ensures
            converts(decode(*self, ffi_value@), r),
    {
        match self {
            Type::Integer(_) | Type::Float(_) => {
                let number = ffi_value.to_number()?;
                Ok(Converted::Value(crate::value::Value::Number(number)))
            },
            Type::Boolean => match ffi_value {
                Value::U8(b) => Ok(Converted::Value(crate::value::Value::Boolean(*b != 0))),
                _ => Err(Error::NotNumeric { native: ffi_value.shown() }),
            },
            Type::String(t) => match ffi_value {
                Value::Ptr(ptr) => {
                    if *ptr == 0 {
                        Ok(Converted::Value(crate::value::Value::Null))
                    } else {
                        Ok(Converted::Text { ptr: *ptr, owned: !t.is_borrowed })
                    }
                },
                _ => Err(Error::NotPointer { subject: Subject::String, native: ffi_value.shown() }),
            },
            Type::GObject(t) => match ffi_value {
                Value::Ptr(ptr) => {
                    if *ptr == 0 {
                        Ok(Converted::Value(crate::value::Value::Null))
                    } else {
                        Ok(Converted::Object(Acquire::GObject { ptr: *ptr, owned: !t.is_borrowed }))
                    }
                },
                _ => Err(Error::NotPointer { subject: Subject::GObject, native: ffi_value.shown() }),
            },
            Type::Boxed(t) => match ffi_value {
                Value::Ptr(ptr) => {
                    if *ptr == 0 {
                        Ok(Converted::Value(crate::value::Value::Null))
                    } else {
                        Ok(
                            Converted::Object(
                                Acquire::Boxed {
                                    ptr: *ptr,
                                    value_type: None,
                                    owned: !t.is_borrowed,
                                },
                            ),
                        )
                    }
                },
                _ => Err(Error::NotPointer { subject: Subject::Boxed, native: ffi_value.shown() }),
            },
            Type::Fundamental(t) => match ffi_value {
                Value::Ptr(ptr) => {
                    if *ptr == 0 {
                        Ok(Converted::Value(crate::value::Value::Null))
                    } else {
                        Ok(
                            Converted::Object(
                                Acquire::Fundamental { ptr: *ptr, owned: !t.is_borrowed },
                            ),
                        )
                    }
                },
                _ => Err(Error::NotPointer { subject: Subject::Fundamental, native: ffi_value.shown() }),
            },
            Type::Null | Type::Undefined => Ok(Converted::Value(crate::value::Value::Null)),
            Type::Array(_) | Type::Ref(_) | Type::Callback(_) | Type::Struct(_) => Err(
                Error::UnsupportedType { operation: Operation::Decode },
            ),
        }
    }

    /// Decodes a native value for which the arguments of the call are at
    /// hand. No descriptor that is decoded here looks at them.
    pub fn decode_with_context(
        &self,
        ffi_value: &Value,
        ffi_args: &Vec<Value>,
        args: &Vec<crate::value::Argument>,
    ) -> (r: Result<Converted, Error<'static>>)
        ensures
            converts(decode(*self, ffi_value@), r),
    {
        self.decode(ffi_value)
    }
}

} // verus!
