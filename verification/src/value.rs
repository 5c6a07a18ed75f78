//! Scripting values as the marshaling core sees them.

use vstd::prelude::*;

pub mod from_glib;

pub use from_glib::{Acquire, Converted, GValue};

use crate::error::{Error, Expected, Kind, Malformed, Operation, Subject};
use crate::js_ext::JsValue;
use crate::managed::{HandleMap, NativeHandle};
use crate::number::Double;
use crate::types::Type;
use crate::value::from_glib::GValueView;

verus! {

/// A scripting function that native code may call back: the identifier
/// under which the embedding keeps the function, and the identifier of
/// the channel into the scripting event loop.
#[derive(Debug, Clone, Copy, PartialEq, Eq, Structural)]
pub struct Callback {
    pub js_func: u64,
    pub channel: u64,
}

impl Callback {
    pub fn new(js_func: u64, channel: u64) -> (r: Self)
        ensures
            r.js_func == js_func,
            r.channel == channel,
    {
        Callback { js_func, channel }
    }

    /// The callback of a scripting function, with the channel into the
    /// event loop that the function belongs to. A value that is no
    /// function is refused.
    pub fn from_js_value(value: &JsValue, channel: u64) -> (r: Result<Self, Error<'static>>)
        ensures
            value matches JsValue::Function(id) ==> r == Ok::<Callback, Error<'static>>(
                Callback { js_func: *id, channel },
            ),
            !(value is Function) ==> r == Err::<Callback, Error<'static>>(
                Error::MalformedDescriptor { reason: Malformed::NotAFunction },
            ),
    {
        match value {
            JsValue::Function(id) => Ok(Callback::new(*id, channel)),
            _ => Err(Error::MalformedDescriptor { reason: Malformed::NotAFunction }),
        }
    }

    /// The scripting function of the callback.
    pub fn to_js_value(&self) -> (r: JsValue)
        ensures
            r == JsValue::Function(self.js_func),
    {
        JsValue::Function(self.js_func)
    }
}

/// An output parameter on the scripting side: its current value, and the
/// identifier of the scripting object that receives what the callee
/// writes.
#[derive(Debug, PartialEq, Eq)]
pub struct Ref {
    pub value: Box<Value>,
    pub js_obj: u64,
}

impl Ref {
    pub fn new(value: Value, js_obj: u64) -> (r: Self)
        ensures
            *r.value == value,
            r.js_obj == js_obj,
    {
        Ref { value: Box::new(value), js_obj }
    }
}

/// A scripting value.
#[derive(Debug, PartialEq, Eq)]
pub enum Value {
    Number(Double),
    String(String),
    Boolean(bool),
    Object(NativeHandle),
    Null,
    Undefined,
    Array(Vec<Value>),
    Callback(Callback),
    Ref(Ref),
}

impl Value {
    /// The kind of the value.
    pub open spec fn spec_kind(&self) -> Kind {
        match self {
            Value::Number(_) => Kind::Number,
            Value::String(_) => Kind::String,
            Value::Boolean(_) => Kind::Boolean,
            Value::Object(_) => Kind::Object,
            Value::Null => Kind::Null,
            Value::Undefined => Kind::Undefined,
            Value::Array(_) => Kind::Array,
            Value::Callback(_) => Kind::Callback,
            Value::Ref(_) => Kind::Ref,
        }
    }

    /// The kind of the value.
    #[verifier::when_used_as_spec(spec_kind)]
    pub fn kind(&self) -> (r: Kind)
        ensures
            r == self.spec_kind(),
    {
        match self {
            Value::Number(_) => Kind::Number,
            Value::String(_) => Kind::String,
            Value::Boolean(_) => Kind::Boolean,
            Value::Object(_) => Kind::Object,
            Value::Null => Kind::Null,
            Value::Undefined => Kind::Undefined,
            Value::Array(_) => Kind::Array,
            Value::Callback(_) => Kind::Callback,
            Value::Ref(_) => Kind::Ref,
        }
    }

    /// The failure of a value that is not what its descriptor asks for.
    pub open spec fn mismatch(
        &self,
        expected: Expected,
        subject: Subject,
        index: Option<usize>,
    ) -> Error<'static> {
        Error::TypeMismatch { expected, subject, actual: self, index }
    }

    /// The address that a value stands for where an object is asked for:
    /// of an object the address behind its handle, if the handle is live;
    /// of `Null` and `Undefined` the null address.
    pub open spec fn spec_object_ptr(&self, handles: &HandleMap, subject: Subject) -> Result<
        usize,
        Error<'static>,
    > {
        match self {
            Value::Object(id) => match handles.ptr_of(*id) {
                Some(ptr) => Ok(ptr),
                None => Err(Error::GarbageCollected { subject, index: None }),
            },
            Value::Null | Value::Undefined => Ok(0),
            _ => Err(self.mismatch(Expected::Object, subject, None)),
        }
    }

    /// Resolves a value to the address of a native object.
    pub fn object_ptr<'a>(&'a self, handles: &HandleMap, subject: Subject) -> (r: Result<
        usize,
        Error<'a>,
    >)
        ensures
            r == self.spec_object_ptr(handles, subject),
    {
        match self {
            Value::Object(id) => match handles.get_ptr(*id) {
                Some(ptr) => Ok(ptr),
                None => Err(Error::GarbageCollected { subject, index: None }),
            },
            Value::Null | Value::Undefined => Ok(0),
            _ => Err(
                Error::TypeMismatch { expected: Expected::Object, subject, actual: self, index: None },
            ),
        }
    }

    /// The value of the object system that a scripting value converts
    /// to: a number becomes a double, a string a string, a boolean a
    /// boolean. Nothing else converts.
    pub open spec fn spec_to_glib_value(self) -> Result<GValueView, Error<'static>> {
        match self {
            Value::Number(n) => Ok(GValueView::Double(n)),
            Value::String(s) => Ok(GValueView::String(Some(s@))),
            Value::Boolean(b) => Ok(GValueView::Boolean(b)),
            Value::Null | Value::Undefined => Err(Error::NullToGlib),
            _ => Err(Error::UnsupportedType { operation: Operation::ToGlib }),
        }
    }

    /// Converts a scripting value to a value of the object system.
    pub fn to_glib_value(self) -> (r: Result<GValue, Error<'static>>)
        ensures
            self.spec_to_glib_value() matches Ok(view) ==> r matches Ok(v) && v@ == view,
            self.spec_to_glib_value() matches Err(e) ==> r == Err::<GValue, Error<'static>>(e),
    {
        match self {
            Value::Number(n) => Ok(GValue::Double(n)),
            Value::String(s) => Ok(GValue::String(Some(s))),
            Value::Boolean(b) => Ok(GValue::Boolean(b)),
            Value::Null | Value::Undefined => Err(Error::NullToGlib),
            _ => Err(Error::UnsupportedType { operation: Operation::ToGlib }),
        }
    }

    /// What a callback hands back to native code for a scripting result.
    /// `Undefined` stands for no result: native code then gets false
    /// where it expects a boolean, zero where it expects an integer, and
    /// nothing otherwise. A result that does not convert gives nothing.
    pub open spec fn spec_into_glib_value_with_default(
        self,
        return_type: Option<&Type>,
    ) -> Option<GValueView> {
        match self {
            Value::Undefined => match return_type {
                Some(Type::Boolean) => Some(GValueView::Boolean(false)),
                Some(Type::Integer(_)) => Some(GValueView::Int(0)),
                _ => None,
            },
            _ => match self.spec_to_glib_value() {
                Ok(v) => Some(v),
                Err(_) => None,
            },
        }
    }

    /// Converts a scripting result for native code, which cannot take a
    /// failure: see [`Value::spec_into_glib_value_with_default`].
    pub fn into_glib_value_with_default(self, return_type: Option<&Type>) -> (r: Option<GValue>)
        ensures
            self.spec_into_glib_value_with_default(return_type) matches Some(view) ==> r matches Some(
                v,
            ) && v@ == view,
            self.spec_into_glib_value_with_default(return_type) is None ==> r is None,
    {
        match self {
            Value::Undefined => match return_type {
                Some(Type::Boolean) => Some(GValue::Boolean(false)),
                Some(Type::Integer(_)) => Some(GValue::Int(0)),
                _ => None,
            },
            other => match other.to_glib_value() {
                Ok(v) => Some(v),
                Err(_) => None,
            },
        }
    }

    /// Decodes a native value under a descriptor.
    pub fn from_ffi_value(ffi_value: &crate::cif::Value, ty: &Type) -> (r: Result<Converted, Error<'static>>)
        ensures
            crate::value::from_glib::converts(crate::cif::decode::decode(*ty, ffi_value@), r),
    {
        ty.decode(ffi_value)
    }

    /// Decodes a native value under a descriptor, with the arguments of
    /// the call at hand.
    pub fn from_ffi_value_with_args(
        ffi_value: &crate::cif::Value,
        ty: &Type,
        ffi_args: &Vec<crate::cif::Value>,
        args: &Vec<Argument>,
    ) -> (r: Result<Converted, Error<'static>>)
        ensures
            crate::value::from_glib::converts(crate::cif::decode::decode(*ty, ffi_value@), r),
    {
        ty.decode_with_context(ffi_value, ffi_args, args)
    }

    /// Whether the value is `Null` or `Undefined`.
    pub open spec fn is_nullish(&self) -> bool {
        self is Null || self is Undefined
    }
}

/// One argument of a native call: its descriptor, its value, and whether
/// it may be left out.
#[derive(Debug, PartialEq, Eq)]
pub struct Argument {
    pub type_: Type,
    pub value: Value,
    pub optional: bool,
}

impl Argument {
    /// An argument that has to be there.
    pub fn new(type_: Type, value: Value) -> (r: Self)
        ensures
            r.type_ == type_,
            r.value == value,
            !r.optional,
    {
        Argument { type_, value, optional: false }
    }
}

} // verus!
