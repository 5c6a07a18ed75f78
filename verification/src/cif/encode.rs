//! Encoding: from a scripting value and its descriptor to a call-ready
//! value.
//!
//! Encoding fails before anything native has happened, or not at all: a
//! value that does not fit its descriptor, a handle that no longer
//! resolves and text that cannot be NUL-terminated are refused here.
//! Two descriptors ask for native work that is not done here, and
//! encoding then says what is left to do: a boxed value that changes
//! hands has to be copied, and a callback needs its closure built.

use vstd::prelude::*;
use crate::cif::{OwnedPtr, Storage, StorageView, Value, ValueView, buffers_view, buffer_address};
use crate::error::{Error, Expected, Kind, Operation, Subject};
use crate::managed::{HandleMap, NativeHandle};
use crate::number::Double;
use crate::numeric::{IntoStorage, primitive_of, stored_primitives};
use crate::text::{c_string, first_index, lemma_first_index, to_c_string};
use crate::types::{ArrayType, CallbackTrampoline, CallbackType, RefType, Type};
use crate::value::{Argument, Callback};

verus! {

/// What encoding an argument gives.
#[derive(Debug, PartialEq, Eq)]
pub enum Encoded {
    /// The call-ready value.
    Value(Value),
    /// The boxed value at `ptr` passes into the callee's ownership: a
    /// copy made by the type's copy function is to be passed, or, where
    /// the type has no identifier, `ptr` itself.
    BoxedCopy { ptr: usize },
    /// A closure that invokes `callback` is to be built and passed as the
    /// trampoline kind has it.
    Closure { trampoline: CallbackTrampoline, callback: Callback },
}

/// What an [`Encoded`] is.
pub enum EncodedView {
    Value(ValueView),
    BoxedCopy { ptr: usize },
    Closure { trampoline: CallbackTrampoline, callback: Callback },
}

impl View for Encoded {
    type V = EncodedView;

    open spec fn view(&self) -> EncodedView {
        match self {
            Encoded::Value(v) => EncodedView::Value(v@),
            Encoded::BoxedCopy { ptr } => EncodedView::BoxedCopy { ptr: *ptr },
            Encoded::Closure { trampoline, callback } => EncodedView::Closure {
                trampoline: *trampoline,
                callback: *callback,
            },
        }
    }
}

impl Encoded {
    /// The value to pass for a boxed value that changes hands, once the
    /// copy has been made or has been found impossible.
    pub fn boxed(ptr: usize, copy: Option<usize>) -> (r: Value)
        ensures
            r@ == ValueView::Ptr(
                match copy {
                    Some(p) => p,
                    None => ptr,
                },
            ),
    {
        match copy {
            Some(p) => Value::Ptr(p),
            None => Value::Ptr(ptr),
        }
    }
}

/// The number that a value stands for under a numeric descriptor: a
/// number itself; zero for `Null` and `Undefined` where the argument is
/// optional.
pub open spec fn number_arg(value: crate::value::Value, optional: bool, subject: Subject) -> Result<
    Double,
    Error<'static>,
> {
    match value {
        crate::value::Value::Number(n) => Ok(n),
        crate::value::Value::Null | crate::value::Value::Undefined => if optional {
            Ok(Double { bits: 0 })
        } else {
            Err(value.mismatch(Expected::Number, subject, None))
        },
        _ => Err(value.mismatch(Expected::Number, subject, None)),
    }
}

/// Whether item `i` is not of the given kind.
pub open spec fn item_is_not(items: Seq<crate::value::Value>, kind: Kind) -> spec_fn(int) -> bool {
    |i: int| items[i].spec_kind() != kind
}

/// Whether item `i` is no string, or a string that holds a NUL byte.
pub open spec fn item_is_no_c_string(items: Seq<crate::value::Value>) -> spec_fn(int) -> bool {
    |i: int| !(items[i] matches crate::value::Value::String(s) && c_string(s@) is Ok)
}

/// Whether the handle of item `i`, an object, no longer resolves.
pub open spec fn item_is_collected(items: Seq<crate::value::Value>, handles: &HandleMap) -> spec_fn(
    int,
) -> bool {
    |i: int| handles.ptr_of(items[i]->Object_0) is None
}

/// The numbers of an array of numbers; a mismatch at the first item that
/// is no number.
pub open spec fn array_numbers(items: Seq<crate::value::Value>, subject: Subject) -> Result<
    Seq<Double>,
    Error<'static>,
> {
    let k = first_index(item_is_not(items, Kind::Number), 0, items.len() as int);
    if k < items.len() {
        Err(items[k].mismatch(Expected::Number, subject, Some(k as usize)))
    } else {
        Ok(Seq::new(items.len(), |i: int| items[i]->Number_0))
    }
}

/// An array of booleans as bytes, one for true and zero for false; a
/// mismatch at the first item that is no boolean.
pub open spec fn array_booleans(items: Seq<crate::value::Value>) -> Result<StorageView, Error<'static>> {
    let k = first_index(item_is_not(items, Kind::Boolean), 0, items.len() as int);
    if k < items.len() {
        Err(items[k].mismatch(Expected::Boolean, Subject::BooleanItem, Some(k as usize)))
    } else {
        Ok(
            StorageView::U8Vec(
                Seq::new(
                    items.len(),
                    |i: int|
                        if items[i]->Boolean_0 {
                            1u8
                        } else {
                            0u8
                        },
                ),
            ),
        )
    }
}

/// An array of strings as NUL-terminated strings. The first item that is
/// no string, or holds a NUL byte, fails the whole array.
pub open spec fn array_strings(items: Seq<crate::value::Value>) -> Result<StorageView, Error<'static>> {
    let k = first_index(item_is_no_c_string(items), 0, items.len() as int);
    if k < items.len() {
        match items[k] {
            crate::value::Value::String(s) => Err(
                Error::InteriorNul {
                    position: c_string(s@)->Err_0 as usize,
                    index: Some(k as usize),
                },
            ),
            _ => Err(items[k].mismatch(Expected::String, Subject::StringItem, Some(k as usize))),
        }
    } else {
        Ok(
            StorageView::StringArray(
                Seq::new(items.len(), |i: int| c_string(items[i]->String_0@)->Ok_0),
            ),
        )
    }
}

/// An array of objects as their handles and addresses. The first item
/// that is no object fails the array; if all are objects, the first whose
/// handle no longer resolves does.
pub open spec fn array_objects(items: Seq<crate::value::Value>, handles: &HandleMap) -> Result<
    StorageView,
    Error<'static>,
> {
    let k = first_index(item_is_not(items, Kind::Object), 0, items.len() as int);
    if k < items.len() {
        Err(items[k].mismatch(Expected::Object, Subject::ObjectItem, Some(k as usize)))
    } else {
        let dead = first_index(item_is_collected(items, handles), 0, items.len() as int);
        if dead < items.len() {
            Err(Error::GarbageCollected { subject: Subject::ObjectItem, index: Some(dead as usize) })
        } else {
            Ok(
                StorageView::ObjectArray(
                    Seq::new(items.len(), |i: int| items[i]->Object_0),
                    Seq::new(items.len(), |i: int| handles.ptr_of(items[i]->Object_0)->0),
                ),
            )
        }
    }
}

/// What encoding an array gives: owned storage that holds the items in
/// their native form. Items may be integers, floating-point numbers,
/// booleans, strings and objects.
pub open spec fn encode_array(ty: ArrayType, value: crate::value::Value, handles: &HandleMap) -> Result<
    StorageView,
    Error<'static>,
> {
    match value {
        crate::value::Value::Array(items) => match *ty.item_type {
            Type::Integer(t) => match array_numbers(items@, Subject::IntegerItem) {
                Ok(numbers) => Ok(stored_primitives(t.spec_native_tag(), numbers)),
                Err(e) => Err(e),
            },
            Type::Float(t) => match array_numbers(items@, Subject::FloatItem) {
                Ok(numbers) => Ok(stored_primitives(t.spec_native_tag(), numbers)),
                Err(e) => Err(e),
            },
            Type::String(_) => array_strings(items@),
            Type::GObject(_) | Type::Boxed(_) => array_objects(items@, handles),
            Type::Boolean => array_booleans(items@),
            _ => Err(Error::UnsupportedType { operation: Operation::ArrayItem }),
        },
        _ => Err(value.mismatch(Expected::Array, Subject::Array, None)),
    }
}

/// What encoding a callback gives: a callback handle asks for a closure
/// of the descriptor's kind; `Null` and `Undefined` stand for no callback
/// where the argument is optional.
pub open spec fn encode_callback(
    trampoline: CallbackTrampoline,
    value: crate::value::Value,
    optional: bool,
) -> Result<EncodedView, Error<'static>> {
    match value {
        crate::value::Value::Callback(callback) => Ok(EncodedView::Closure { trampoline, callback }),
        crate::value::Value::Null | crate::value::Value::Undefined => if optional {
            Ok(EncodedView::Value(ValueView::Ptr(0)))
        } else {
            Err(value.mismatch(Expected::Callback, Subject::Callback, None))
        },
        _ => Err(value.mismatch(Expected::Callback, Subject::Callback, None)),
    }
}

/// What encoding a value under a descriptor gives.
pub open spec fn encode(
    ty: Type,
    value: crate::value::Value,
    optional: bool,
    handles: &HandleMap,
) -> Result<EncodedView, Error<'static>>
    decreases ty,
{
    match ty {
        Type::Integer(t) => match number_arg(value, optional, Subject::Integer) {
            Ok(n) => Ok(EncodedView::Value(primitive_of(t.spec_native_tag(), n))),
            Err(e) => Err(e),
        },
        Type::Float(t) => match number_arg(value, optional, Subject::Float) {
            Ok(n) => Ok(EncodedView::Value(primitive_of(t.spec_native_tag(), n))),
            Err(e) => Err(e),
        },
        Type::String(_) => match value {
            crate::value::Value::String(s) => match c_string(s@) {
                Ok(bytes) => Ok(EncodedView::Value(ValueView::OwnedPtr(StorageView::CString(bytes)))),
                Err(position) => Err(
                    Error::InteriorNul { position: position as usize, index: None },
                ),
            },
            crate::value::Value::Null | crate::value::Value::Undefined => Ok(
                EncodedView::Value(ValueView::Ptr(0)),
            ),
            _ => Err(value.mismatch(Expected::String, Subject::String, None)),
        },
        Type::Boolean => match value {
            crate::value::Value::Boolean(b) => Ok(
                EncodedView::Value(
                    ValueView::U8(
                        if b {
                            1
                        } else {
                            0
                        },
                    ),
                ),
            ),
            _ => Err(value.mismatch(Expected::Boolean, Subject::Boolean, None)),
        },
        Type::Null | Type::Undefined => Ok(EncodedView::Value(ValueView::Ptr(0))),
        Type::GObject(_) => match value.spec_object_ptr(handles, Subject::GObject) {
            Ok(ptr) => Ok(EncodedView::Value(ValueView::Ptr(ptr))),
            Err(e) => Err(e),
        },
        Type::Fundamental(_) => match value.spec_object_ptr(handles, Subject::Fundamental) {
            Ok(ptr) => Ok(EncodedView::Value(ValueView::Ptr(ptr))),
            Err(e) => Err(e),
        },
        Type::Struct(_) => match value.spec_object_ptr(handles, Subject::Boxed) {
            Ok(ptr) => Ok(EncodedView::Value(ValueView::Ptr(ptr))),
            Err(e) => Err(e),
        },
        Type::Boxed(t) => match value.spec_object_ptr(handles, Subject::Boxed) {
            Ok(ptr) => if !t.is_borrowed && ptr != 0 {
                Ok(EncodedView::BoxedCopy { ptr })
            } else {
                Ok(EncodedView::Value(ValueView::Ptr(ptr)))
            },
            Err(e) => Err(e),
        },
        Type::Array(t) => match encode_array(t, value, handles) {
            Ok(storage) => Ok(EncodedView::Value(ValueView::OwnedPtr(storage))),
            Err(e) => Err(e),
        },
        Type::Callback(t) => encode_callback(t.trampoline, value, optional),
        Type::Ref(t) => match value {
            crate::value::Value::Ref(r) => match *t.inner_type {
                Type::Boxed(_) | Type::GObject(_) => match *r.value {
                    crate::value::Value::Object(id) => match handles.ptr_of(id) {
                        Some(ptr) => Ok(EncodedView::Value(ValueView::Ptr(ptr))),
                        None => Err(
                            Error::GarbageCollected { subject: Subject::Ref, index: None },
                        ),
                    },
                    crate::value::Value::Null | crate::value::Value::Undefined => Ok(
                        EncodedView::Value(ValueView::OwnedPtr(StorageView::PtrStorage(seq![0]))),
                    ),
                    _ => Err(r.value.mismatch(Expected::ObjectOrNull, Subject::RefObject, None)),
                },
                inner => match encode(inner, *r.value, false, handles) {
                    Ok(EncodedView::Value(v)) => Ok(
                        EncodedView::Value(ValueView::OwnedPtr(StorageView::Boxed(Box::new(v)))),
                    ),
                    Ok(_) => Err(Error::UnsupportedType { operation: Operation::Encode }),
                    Err(e) => Err(e),
                },
            },
            crate::value::Value::Null | crate::value::Value::Undefined => Ok(
                EncodedView::Value(ValueView::Ptr(0)),
            ),
            _ => Err(value.mismatch(Expected::Ref, Subject::Ref, None)),
        },
    }
}

/// Whether `r` is the outcome `expected` of an encoding: the same
/// failure, or a value that is what was expected, with its arrays of
/// addresses in order.
pub open spec fn encodes(expected: Result<EncodedView, Error<'static>>, r: Result<Encoded, Error<'static>>) -> bool {
    match expected {
        Ok(view) => r matches Ok(encoded) && encoded@ == view && (encoded matches Encoded::Value(
            v,
        ) ==> v.wf()),
        Err(e) => r == Err::<Encoded, Error<'static>>(e),
    }
}

impl Value {
    /// Whether the value is one that encoding gives: a primitive, a
    /// pointer, or an owned pointer that is not null and whose storage is
    /// in order. The arguments of a callback are put together only once
    /// its closure has been built, and nothing encodes to `Void`.
    pub open spec fn wf(&self) -> bool {
        match self {
            Value::OwnedPtr(owned) => owned.value.wf() && owned.ptr != 0,
            Value::TrampolineCallback(_) => false,
            Value::Void => false,
            _ => true,
        }
    }

    /// Encodes an argument for a native call.
    pub fn try_from<'a>(arg: &'a Argument, handles: &HandleMap) -> (r: Result<Encoded, Error<'a>>)
        ensures
            encodes(encode(arg.type_, arg.value, arg.optional, handles), r),
    {
        Self::encode(&arg.type_, &arg.value, arg.optional, handles)
    }

    /// Encodes a value under a descriptor.
    pub fn encode<'a>(
        ty: &Type,
        value: &'a crate::value::Value,
        optional: bool,
        handles: &HandleMap,
    ) -> (r: Result<Encoded, Error<'a>>)
        ensures
            encodes(encode(*ty, *value, optional, handles), r),
        decreases ty,
    {
        match ty {
            Type::Integer(t) => {
                let number = match value {
                    crate::value::Value::Number(n) => *n,
                    crate::value::Value::Null | crate::value::Value::Undefined => {
                        if optional {
                            Double::zero()
                        } else {
                            return Err(type_mismatch(Expected::Number, Subject::Integer, value));
                        }
                    },
                    _ => return Err(type_mismatch(Expected::Number, Subject::Integer, value)),
                };
                Ok(Encoded::Value(t.to_cif_value(number)))
            },
            Type::Float(t) => {
                let number = match value {
                    crate::value::Value::Number(n) => *n,
                    crate::value::Value::Null | crate::value::Value::Undefined => {
                        if optional {
                            Double::zero()
                        } else {
                            return Err(type_mismatch(Expected::Number, Subject::Float, value));
                        }
                    },
                    _ => return Err(type_mismatch(Expected::Number, Subject::Float, value)),
                };
                Ok(Encoded::Value(t.to_cif_value(number)))
            },
            Type::String(_) => match value {
                crate::value::Value::String(s) => match to_c_string(s.as_str()) {
                    Ok(bytes) => Ok(
                        Encoded::Value(Value::OwnedPtr(OwnedPtr::from_vec(Storage::CString(bytes)))),
                    ),
                    Err(position) => Err(Error::InteriorNul { position, index: None }),
                },
                crate::value::Value::Null | crate::value::Value::Undefined => Ok(
                    Encoded::Value(Value::Ptr(0)),
                ),
                _ => Err(type_mismatch(Expected::String, Subject::String, value)),
            },
            Type::Boolean => match value {
                crate::value::Value::Boolean(b) => Ok(
                    Encoded::Value(
                        Value::U8(
                            if *b {
                                1
                            } else {
                                0
                            },
                        ),
                    ),
                ),
                _ => Err(type_mismatch(Expected::Boolean, Subject::Boolean, value)),
            },
            Type::Null => Ok(Encoded::Value(Value::Ptr(0))),
            Type::Undefined => Ok(Encoded::Value(Value::Ptr(0))),
            Type::GObject(_) => {
                let ptr = value.object_ptr(handles, Subject::GObject)?;
                Ok(Encoded::Value(Value::Ptr(ptr)))
            },
            Type::Fundamental(_) => {
                let ptr = value.object_ptr(handles, Subject::Fundamental)?;
                Ok(Encoded::Value(Value::Ptr(ptr)))
            },
            Type::Struct(_) => {
                let ptr = value.object_ptr(handles, Subject::Boxed)?;
                Ok(Encoded::Value(Value::Ptr(ptr)))
            },
            Type::Boxed(t) => {
                let ptr = value.object_ptr(handles, Subject::Boxed)?;
                let is_transfer_full = !t.is_borrowed && ptr != 0;
                if is_transfer_full {
                    Ok(Encoded::BoxedCopy { ptr })
                } else {
                    Ok(Encoded::Value(Value::Ptr(ptr)))
                }
            },
            Type::Array(t) => match Self::try_from_array(value, t, handles) {
                Ok(v) => Ok(Encoded::Value(v)),
                Err(e) => Err(e),
            },
            Type::Callback(t) => Self::try_from_callback(value, optional, t),
            Type::Ref(t) => Self::try_from_ref(value, t, handles),
        }
    }

    /// Encodes an array: owned storage that holds the items in their
    /// native form. The first item that does not fit fails the array.
    pub fn try_from_array<'a>(
        value: &'a crate::value::Value,
        type_: &ArrayType,
        handles: &HandleMap,
    ) -> (r: Result<Value, Error<'a>>)
        ensures
            encode_array(*type_, *value, handles) matches Ok(storage) ==> r matches Ok(v) && v@
                == ValueView::OwnedPtr(storage) && v.wf(),
            encode_array(*type_, *value, handles) matches Err(e) ==> r == Err::<Value, Error<'static>>(e),
    {
        let items = match value {
            crate::value::Value::Array(items) => items,
            _ => return Err(type_mismatch(Expected::Array, Subject::Array, value)),
        };
        let storage = match &*type_.item_type {
            Type::Integer(t) => {
                let numbers = collect_numbers(items, Subject::IntegerItem)?;
                t.dispatch(IntoStorage(&numbers))
            },
            Type::Float(t) => {
                let numbers = collect_numbers(items, Subject::FloatItem)?;
                t.dispatch(IntoStorage(&numbers))
            },
            Type::String(_) => collect_strings(items)?,
            Type::GObject(_) | Type::Boxed(_) => collect_objects(items, handles)?,
            Type::Boolean => collect_booleans(items)?,
            _ => return Err(Error::UnsupportedType { operation: Operation::ArrayItem }),
        };
        Ok(Value::OwnedPtr(OwnedPtr::from_vec(storage)))
    }

    /// Encodes a callback: a callback handle asks for a closure of the
    /// descriptor's kind; `Null` and `Undefined` stand for no callback
    /// where the argument is optional.
    pub fn try_from_callback<'a>(
        value: &'a crate::value::Value,
        optional: bool,
        type_: &CallbackType,
    ) -> (r: Result<Encoded, Error<'a>>)
        ensures
            encodes(encode_callback(type_.trampoline, *value, optional), r),
    {
        match value {
            crate::value::Value::Callback(callback) => Ok(
                Encoded::Closure { trampoline: type_.trampoline, callback: *callback },
            ),
            crate::value::Value::Null | crate::value::Value::Undefined => {
                if optional {
                    Ok(Encoded::Value(Value::Ptr(0)))
                } else {
                    Err(type_mismatch(Expected::Callback, Subject::Callback, value))
                }
            },
            _ => Err(type_mismatch(Expected::Callback, Subject::Callback, value)),
        }
    }

    /// Encodes an output parameter.
    ///
    /// For a boxed value or an object the current value of the reference
    /// decides who allocates: an object is the caller's memory, and its
    /// address is passed for the callee to write into; `Null` or
    /// `Undefined` leaves the allocation to the callee, which gets the
    /// address of a fresh pointer slot that holds null. For any other
    /// inner type the current value is encoded and the address of that
    /// encoding is passed.
    pub fn try_from_ref<'a>(
        value: &'a crate::value::Value,
        type_: &RefType,
        handles: &HandleMap,
    ) -> (r: Result<Encoded, Error<'a>>)
        ensures
            encodes(encode(Type::Ref(*type_), *value, false, handles), r),
        decreases type_,
    {
        let reference = match value {
            crate::value::Value::Ref(reference) => reference,
            crate::value::Value::Null | crate::value::Value::Undefined => {
                return Ok(Encoded::Value(Value::Ptr(0)));
            },
            _ => return Err(type_mismatch(Expected::Ref, Subject::Ref, value)),
        };
        match &*type_.inner_type {
            Type::Boxed(_) | Type::GObject(_) => match &*reference.value {
                crate::value::Value::Object(id) => match handles.get_ptr(*id) {
                    Some(ptr) => Ok(Encoded::Value(Value::Ptr(ptr))),
                    None => Err(Error::GarbageCollected { subject: Subject::Ref, index: None }),
                },
                crate::value::Value::Null | crate::value::Value::Undefined => {
                    let mut slot: Vec<usize> = Vec::new();
                    slot.push(0);
                    assert(slot@ =~= seq![0usize]);
                    Ok(Encoded::Value(Value::OwnedPtr(OwnedPtr::from_vec(Storage::PtrStorage(slot)))))
                },
                _ => Err(
                    type_mismatch(Expected::ObjectOrNull, Subject::RefObject, &*reference.value),
                ),
            },
            inner => match Self::encode(inner, &*reference.value, false, handles) {
                Ok(Encoded::Value(v)) => Ok(
                    Encoded::Value(Value::OwnedPtr(OwnedPtr::from_vec(Storage::Boxed(Box::new(v))))),
                ),
                Ok(_) => Err(Error::UnsupportedType { operation: Operation::Encode }),
                Err(e) => Err(e),
            },
        }
    }
}

fn item_mismatch<'a>(
    expected: Expected,
    subject: Subject,
    actual: &'a crate::value::Value,
    index: usize,
) -> (r: Error<'a>)
    ensures
        r == actual.mismatch(expected, subject, Some(index)),
{
    Error::TypeMismatch { expected, subject, actual, index: Some(index) }
}

fn collect_numbers<'a>(items: &'a Vec<crate::value::Value>, subject: Subject) -> (r: Result<
    Vec<Double>,
    Error<'a>,
>)
    ensures
        array_numbers(items@, subject) matches Ok(numbers) ==> r matches Ok(v) && v@ == numbers,
        array_numbers(items@, subject) matches Err(e) ==> r == Err::<Vec<Double>, Error<'static>>(e),
{
    let mut out: Vec<Double> = Vec::new();
    let mut i: usize = 0;
    while i < items.len()
        invariant
            i <= items.len(),
            out@.len() == i,
            forall|j: int| 0 <= j < i ==> !#[trigger] item_is_not(items@, Kind::Number)(j),
            forall|j: int| 0 <= j < i ==> out@[j] == items@[j]->Number_0,
        decreases items.len() - i,
    {
        match &items[i] {
            crate::value::Value::Number(n) => out.push(*n),
            other => {
                proof {
                    lemma_first_index(
                        item_is_not(items@, Kind::Number),
                        0,
                        items@.len() as int,
                        i as int,
                    );
                }
                return Err(item_mismatch(Expected::Number, subject, other, i));
            },
        }
        i += 1;
    }
    proof {
        lemma_first_index(
            item_is_not(items@, Kind::Number),
            0,
            items@.len() as int,
            items@.len() as int,
        );
        assert(out@ =~= Seq::new(items@.len(), |i: int| items@[i]->Number_0));
    }
    Ok(out)
}

fn collect_booleans<'a>(items: &'a Vec<crate::value::Value>) -> (r: Result<Storage, Error<'a>>)
    ensures
        array_booleans(items@) matches Ok(storage) ==> r matches Ok(v) && v@ == storage && v.wf(),
        array_booleans(items@) matches Err(e) ==> r == Err::<Storage, Error<'static>>(e),
{
    let mut out: Vec<u8> = Vec::new();
    let mut i: usize = 0;
    while i < items.len()
        invariant
            i <= items.len(),
            out@.len() == i,
            forall|j: int| 0 <= j < i ==> !#[trigger] item_is_not(items@, Kind::Boolean)(j),
            forall|j: int|
                0 <= j < i ==> out@[j] == (if items@[j]->Boolean_0 {
                    1u8
                } else {
                    0u8
                }),
        decreases items.len() - i,
    {
        match &items[i] {
            crate::value::Value::Boolean(b) => out.push(
                if *b {
                    1
                } else {
                    0
                },
            ),
            other => {
                proof {
                    lemma_first_index(
                        item_is_not(items@, Kind::Boolean),
                        0,
                        items@.len() as int,
                        i as int,
                    );
                }
                return Err(item_mismatch(Expected::Boolean, Subject::BooleanItem, other, i));
            },
        }
        i += 1;
    }
    proof {
        lemma_first_index(
            item_is_not(items@, Kind::Boolean),
            0,
            items@.len() as int,
            items@.len() as int,
        );
        assert(out@ =~= Seq::new(
            items@.len(),
            |i: int|
                if items@[i]->Boolean_0 {
                    1u8
                } else {
                    0u8
                },
        ));
    }
    Ok(Storage::U8Vec(out))
}

fn collect_strings<'a>(items: &'a Vec<crate::value::Value>) -> (r: Result<Storage, Error<'a>>)
    ensures
        array_strings(items@) matches Ok(storage) ==> r matches Ok(v) && v@ == storage && v.wf(),
        array_strings(items@) matches Err(e) ==> r == Err::<Storage, Error<'static>>(e),
{
    let mut strings: Vec<Vec<u8>> = Vec::new();
    let mut i: usize = 0;
    while i < items.len()
        invariant
            i <= items.len(),
            strings@.len() == i,
            forall|j: int| 0 <= j < i ==> !#[trigger] item_is_no_c_string(items@)(j),
            forall|j: int| 0 <= j < i ==> strings@[j]@ == c_string(items@[j]->String_0@)->Ok_0,
        decreases items.len() - i,
    {
        match &items[i] {
            crate::value::Value::String(s) => match to_c_string(s.as_str()) {
                Ok(bytes) => strings.push(bytes),
                Err(position) => {
                    proof {
                        lemma_first_index(
                            item_is_no_c_string(items@),
                            0,
                            items@.len() as int,
                            i as int,
                        );
                    }
                    return Err(Error::InteriorNul { position, index: Some(i) });
                },
            },
            other => {
                proof {
                    lemma_first_index(
                        item_is_no_c_string(items@),
                        0,
                        items@.len() as int,
                        i as int,
                    );
                }
                return Err(item_mismatch(Expected::String, Subject::StringItem, other, i));
            },
        }
        i += 1;
    }
    let mut ptrs: Vec<usize> = Vec::new();
    let mut k: usize = 0;
    while k < strings.len()
        invariant
            k <= strings.len(),
            ptrs@.len() == k,
        decreases strings.len() - k,
    {
        ptrs.push(buffer_address(&strings[k]));
        k += 1;
    }
    ptrs.push(0);
    proof {
        lemma_first_index(
            item_is_no_c_string(items@),
            0,
            items@.len() as int,
            items@.len() as int,
        );
        assert(buffers_view(strings@) =~= Seq::new(
            items@.len(),
            |i: int| c_string(items@[i]->String_0@)->Ok_0,
        ));
    }
    Ok(Storage::StringArray(strings, ptrs))
}

fn collect_objects<'a>(items: &'a Vec<crate::value::Value>, handles: &HandleMap) -> (r: Result<
    Storage,
    Error<'a>,
>)
    ensures
        array_objects(items@, handles) matches Ok(storage) ==> r matches Ok(v) && v@ == storage
            && v.wf(),
        array_objects(items@, handles) matches Err(e) ==> r == Err::<Storage, Error<'static>>(e),
{
    let mut ids: Vec<NativeHandle> = Vec::new();
    let mut i: usize = 0;
    while i < items.len()
        invariant
            i <= items.len(),
            ids@.len() == i,
            forall|j: int| 0 <= j < i ==> !#[trigger] item_is_not(items@, Kind::Object)(j),
            forall|j: int| 0 <= j < i ==> ids@[j] == items@[j]->Object_0,
        decreases items.len() - i,
    {
        match &items[i] {
            crate::value::Value::Object(id) => ids.push(*id),
            other => {
                proof {
                    lemma_first_index(
                        item_is_not(items@, Kind::Object),
                        0,
                        items@.len() as int,
                        i as int,
                    );
                }
                return Err(item_mismatch(Expected::Object, Subject::ObjectItem, other, i));
            },
        }
        i += 1;
    }
    proof {
        lemma_first_index(
            item_is_not(items@, Kind::Object),
            0,
            items@.len() as int,
            items@.len() as int,
        );
    }
    let mut ptrs: Vec<usize> = Vec::new();
    let mut k: usize = 0;
    while k < ids.len()
        invariant
            k <= ids.len(),
            ids@.len() == items@.len(),
            ptrs@.len() == k,
            first_index(item_is_not(items@, Kind::Object), 0, items@.len() as int)
                == items@.len(),
            forall|j: int| 0 <= j < ids@.len() ==> ids@[j] == items@[j]->Object_0,
            forall|j: int| 0 <= j < k ==> !#[trigger] item_is_collected(items@, handles)(j),
            forall|j: int| 0 <= j < k ==> ptrs@[j] == handles.ptr_of(items@[j]->Object_0)->0,
        decreases ids.len() - k,
    {
        match handles.get_ptr(ids[k]) {
            Some(ptr) => ptrs.push(ptr),
            None => {
                proof {
                    lemma_first_index(
                        item_is_collected(items@, handles),
                        0,
                        items@.len() as int,
                        k as int,
                    );
                }
                return Err(
                    Error::GarbageCollected { subject: Subject::ObjectItem, index: Some(k) },
                );
            },
        }
        k += 1;
    }
    proof {
        lemma_first_index(
            item_is_collected(items@, handles),
            0,
            items@.len() as int,
            items@.len() as int,
        );
        assert(ids@ =~= Seq::new(items@.len(), |i: int| items@[i]->Object_0));
        assert(ptrs@ =~= Seq::new(
            items@.len(),
            |i: int| handles.ptr_of(items@[i]->Object_0)->0,
        ));
    }
    Ok(Storage::ObjectArray(ids, ptrs))
}

/// The failure of a value that is not what its descriptor asks for.
pub fn type_mismatch<'a>(expected: Expected, subject: Subject, actual: &'a crate::value::Value) -> (r:
    Error<'a>)
    ensures
        r == actual.mismatch(expected, subject, None),
{
    Error::TypeMismatch { expected, subject, actual, index: None }
}

} // verus!
