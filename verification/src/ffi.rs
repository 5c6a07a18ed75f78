//! Native values as the call interface takes them.
//!
//! A [`FfiValue`] is a call-ready value that knows how to hand itself to
//! the native call interface: as one argument, or, for a callback with a
//! trampoline, as two or three. A [`Stash`] is a pointer with the storage
//! that it points into.

use vstd::prelude::*;
use crate::cif::decode::decode;
use crate::cif::encode::{encode, encodes, Encoded};
use crate::cif::{Storage, StorageView, Value, ValueView, storage_view};
use crate::error::{Error, Subject};
use crate::managed::{HandleMap, NativeHandle};
use crate::number::{Double, Single};
use crate::render::Native;
use crate::numeric::{number_of, stored_numbers, NumericDispatch, NumericPrimitive};
use crate::types::{CallbackTrampoline, IntegerType, NativeTag, Type};
use crate::value::from_glib::converts;
use crate::value::Converted;

verus! {

/// One argument of a native call, as `libffi` takes it: the address of the
/// datum. Nothing is known of what is inside.
#[verifier::external_type_specification]
#[verifier::external_body]
pub struct ExArg<'a>(libffi::middle::Arg<'a>);

/// Calls `libffi::middle::arg`, which wraps the address of `value` as
/// one argument of a native call. The argument borrows the value: it
/// cannot outlive it.
#[verifier::external_body]
fn libffi_arg<'a, T>(value: &'a T) -> libffi::middle::Arg<'a> {
    libffi::middle::arg(value)
}

pub use crate::cif::{HashTableData, HashTableStorage};

/// The storage that a stash keeps alive.
pub type StashStorage = Storage;

/// A pointer with the storage that it points into.
#[derive(Debug, PartialEq, Eq)]
pub struct Stash {
    ptr: usize,
    storage: StashStorage,
}

impl View for Stash {
    type V = StorageView;

    closed spec fn view(&self) -> StorageView {
        storage_view(self.storage)
    }
}

/// Reads the numbers of a vector of one primitive.
pub struct Numbers<'a>(pub &'a Storage);

impl<'a> NumericDispatch<Result<Vec<Double>, Error<'static>>> for Numbers<'a> {
    open spec fn gives(self, tag: NativeTag, r: Result<Vec<Double>, Error<'static>>) -> bool {
        match stored_numbers(self.0@, tag) {
            Some(numbers) => r matches Ok(values) && values@ == numbers,
            None => r == Err::<Vec<Double>, Error<'static>>(Error::StorageMismatch),
        }
    }

    fn call<T: NumericPrimitive>(self) -> (r: Result<Vec<Double>, Error<'static>>) {
        match T::downcast_vec(self.0) {
            None => Err(Error::StorageMismatch),
            Some(items) => {
                let ghost numbers = stored_numbers(self.0@, T::tag())->0;
                let mut values: Vec<Double> = Vec::new();
                let mut i: usize = 0;
                while i < items.len()
                    invariant
                        i <= items.len(),
                        numbers == Seq::new(
                            items@.len(),
                            |i: int| number_of(items@[i].cif())->0,
                        ),
                        values@.len() == i,
                        forall|j: int| 0 <= j < i ==> values@[j] == numbers[j],
                    decreases items.len() - i,
                {
                    values.push(items[i].to_number());
                    i += 1;
                }
                assert(values@ =~= numbers);
                Ok(values)
            },
        }
    }
}

impl Stash {
    /// The address that the stash points at.
    pub closed spec fn spec_ptr(&self) -> usize {
        self.ptr
    }

    pub fn new(ptr: usize, storage: StashStorage) -> (r: Self)
        ensures
            r.spec_ptr() == ptr,
            r@ == storage@,
    {
        Stash { ptr, storage }
    }

    /// A pointer that keeps nothing alive.
    pub fn unit(ptr: usize) -> (r: Self)
        ensures
            r.spec_ptr() == ptr,
            r@ == StorageView::Unit,
    {
        Stash { ptr, storage: Storage::Unit }
    }

    #[verifier::when_used_as_spec(spec_ptr)]
    pub fn ptr(&self) -> (r: usize)
        ensures
            r == self.spec_ptr(),
    {
        self.ptr
    }

    pub fn pointer_ref(&self) -> (r: &usize)
        ensures
            *r == self.spec_ptr(),
    {
        &self.ptr
    }

    pub fn storage(&self) -> (r: &StashStorage)
        ensures
            r@ == self@,
    {
        &self.storage
    }

    /// The numbers of a stash that holds integers of the described type.
    /// A stash that holds anything else is refused.
    pub fn as_numeric_slice(&self, kind: IntegerType) -> (r: Result<Vec<Double>, Error<'static>>)
        ensures
            stored_numbers(self@, kind.spec_native_tag()) matches Some(numbers) ==> r matches Ok(
                values,
            ) && values@ == numbers,
            stored_numbers(self@, kind.spec_native_tag()) is None ==> r == Err::<
                Vec<Double>,
                Error<'static>,
            >(Error::StorageMismatch),
    {
        kind.dispatch(Numbers(&self.storage))
    }

    /// The single-precision numbers of a stash that holds such.
    pub fn as_f32_slice(&self) -> (r: Result<&Vec<Single>, Error<'static>>)
        ensures
            self@ matches StorageView::F32Vec(items) ==> r matches Ok(v) && v@ == items,
            !(self@ is F32Vec) ==> r matches Err(Error::StorageMismatch),
    {
        match &self.storage {
            Storage::F32Vec(v) => Ok(v),
            _ => Err(Error::StorageMismatch),
        }
    }

    /// The double-precision numbers of a stash that holds such.
    pub fn as_f64_slice(&self) -> (r: Result<&Vec<Double>, Error<'static>>)
        ensures
            self@ matches StorageView::F64Vec(items) ==> r matches Ok(v) && v@ == items,
            !(self@ is F64Vec) ==> r matches Err(Error::StorageMismatch),
    {
        match &self.storage {
            Storage::F64Vec(v) => Ok(v),
            _ => Err(Error::StorageMismatch),
        }
    }

    /// The NUL-terminated strings of a stash that holds an array of
    /// strings.
    pub fn as_cstring_array(&self) -> (r: Result<&Vec<Vec<u8>>, Error<'static>>)
        ensures
            self@ matches StorageView::StringArray(items) ==> r matches Ok(v)
                && crate::cif::buffers_view(v@) == items,
            !(self@ is StringArray) ==> r matches Err(Error::StorageMismatch),
    {
        match &self.storage {
            Storage::StringArray(strings, _) => Ok(strings),
            _ => Err(Error::StorageMismatch),
        }
    }

    /// The bytes of a stash that holds booleans.
    pub fn as_bool_slice(&self) -> (r: Result<&Vec<u8>, Error<'static>>)
        ensures
            self@ matches StorageView::U8Vec(items) ==> r matches Ok(v) && v@ == items,
            !(self@ is U8Vec) ==> r matches Err(Error::StorageMismatch),
    {
        match &self.storage {
            Storage::U8Vec(v) => Ok(v),
            _ => Err(Error::StorageMismatch),
        }
    }

    /// The handles of a stash that holds an array of objects.
    pub fn as_object_array(&self) -> (r: Result<&Vec<NativeHandle>, Error<'static>>)
        ensures
            self@ matches StorageView::ObjectArray(ids, ptrs) ==> r matches Ok(v) && v@ == ids,
            !(self@ is ObjectArray) ==> r matches Err(Error::StorageMismatch),
    {
        match &self.storage {
            Storage::ObjectArray(ids, _) => Ok(ids),
            _ => Err(Error::StorageMismatch),
        }
    }
}

/// A callback with a trampoline: the trampoline, the data that it is
/// called with, and the function that releases the data, if any.
#[derive(Debug, PartialEq, Eq)]
pub struct TrampolineCallbackValue {
    pub trampoline_ptr: usize,
    pub closure: Stash,
    pub destroy_ptr: Option<usize>,
    /// Whether the native signature takes the data before the
    /// trampoline.
    pub data_first: bool,
}

impl TrampolineCallbackValue {
    /// The native arguments of the callback, in order: the trampoline and
    /// the data, the data first where the signature has it so, and then
    /// the releasing function where there is one.
    pub open spec fn args(&self) -> Seq<usize> {
        let pair = if self.data_first {
            seq![self.closure.spec_ptr(), self.trampoline_ptr]
        } else {
            seq![self.trampoline_ptr, self.closure.spec_ptr()]
        };
        match self.destroy_ptr {
            Some(destroy) => pair.push(destroy),
            None => pair,
        }
    }

    /// The call-ready value of a callback of the given kind whose closure
    /// has been built at `closure_ptr`: for a plain closure the closure
    /// itself; for the other kinds the trampoline and its companions, in
    /// the order that the kind has.
    pub fn for_kind(
        trampoline: CallbackTrampoline,
        trampoline_ptr: usize,
        closure_ptr: usize,
        unref_closure_ptr: usize,
    ) -> (r: FfiValue)
        ensures
            trampoline is Closure ==> (r matches FfiValue::Stash(stash) && stash.spec_ptr()
                == closure_ptr && stash@ == StorageView::Unit),
            !(trampoline is Closure) ==> (r matches FfiValue::TrampolineCallback(t) && t.args()
                == crate::cif::TrampolineCallbackValue::ordered_args(
                trampoline,
                trampoline_ptr,
                closure_ptr,
                unref_closure_ptr,
            )),
    {
        match trampoline {
            CallbackTrampoline::Closure => FfiValue::Stash(Stash::unit(closure_ptr)),
            CallbackTrampoline::AsyncReady => {
                let value = TrampolineCallbackValue {
                    trampoline_ptr,
                    closure: Stash::unit(closure_ptr),
                    destroy_ptr: None,
                    data_first: false,
                };
                assert(value.args() =~= seq![trampoline_ptr, closure_ptr]);
                FfiValue::TrampolineCallback(value)
            },
            CallbackTrampoline::Destroy => {
                let value = TrampolineCallbackValue {
                    trampoline_ptr,
                    closure: Stash::unit(closure_ptr),
                    destroy_ptr: None,
                    data_first: true,
                };
                assert(value.args() =~= seq![closure_ptr, trampoline_ptr]);
                FfiValue::TrampolineCallback(value)
            },
            CallbackTrampoline::DrawFunc => {
                let value = TrampolineCallbackValue {
                    trampoline_ptr,
                    closure: Stash::unit(closure_ptr),
                    destroy_ptr: Some(unref_closure_ptr),
                    data_first: false,
                };
                assert(value.args() =~= seq![trampoline_ptr, closure_ptr, unref_closure_ptr]);
                FfiValue::TrampolineCallback(value)
            },
        }
    }

    /// The native arguments of the callback in order, each by reference
    /// to where it is kept.
    pub fn arg_refs(&self) -> (r: Vec<&usize>)
        ensures
            r@.len() == self.args().len(),
            forall|i: int| 0 <= i < r@.len() ==> *r@[i] == self.args()[i],
    {
        let mut refs: Vec<&usize> = Vec::new();
        if self.data_first {
            refs.push(self.closure.pointer_ref());
            refs.push(&self.trampoline_ptr);
        } else {
            refs.push(&self.trampoline_ptr);
            refs.push(self.closure.pointer_ref());
        }
        match &self.destroy_ptr {
            Some(destroy_ptr) => refs.push(destroy_ptr),
            None => {},
        }
        refs
    }

    /// The callback whose trampoline `trampoline_fn` is called with the
    /// callback data at `data_ptr`, trampoline first, and whose data
    /// `release_fn` releases.
    pub fn build(data_ptr: usize, trampoline_fn: usize, release_fn: usize) -> (r: FfiValue)
        ensures
            r matches FfiValue::TrampolineCallback(t) && t.args() == seq![
                trampoline_fn,
                data_ptr,
                release_fn,
            ],
    {
        let value = TrampolineCallbackValue {
            trampoline_ptr: trampoline_fn,
            closure: Stash::unit(data_ptr),
            destroy_ptr: Some(release_fn),
            data_first: false,
        };
        assert(value.args() =~= seq![trampoline_fn, data_ptr, release_fn]);
        FfiValue::TrampolineCallback(value)
    }
}

/// A call-ready value.
#[derive(Debug, PartialEq, Eq)]
pub enum FfiValue {
    U8(u8),
    I8(i8),
    U16(u16),
    I16(i16),
    U32(u32),
    I32(i32),
    U64(u64),
    I64(i64),
    F32(Single),
    F64(Double),
    Ptr(usize),
    Stash(Stash),
    TrampolineCallback(TrampolineCallbackValue),
    Void,
}

impl View for FfiValue {
    type V = ValueView;

    open spec fn view(&self) -> ValueView {
        match self {
            FfiValue::U8(v) => ValueView::U8(*v),
            FfiValue::I8(v) => ValueView::I8(*v),
            FfiValue::U16(v) => ValueView::U16(*v),
            FfiValue::I16(v) => ValueView::I16(*v),
            FfiValue::U32(v) => ValueView::U32(*v),
            FfiValue::I32(v) => ValueView::I32(*v),
            FfiValue::U64(v) => ValueView::U64(*v),
            FfiValue::I64(v) => ValueView::I64(*v),
            FfiValue::F32(v) => ValueView::F32(*v),
            FfiValue::F64(v) => ValueView::F64(*v),
            FfiValue::Ptr(p) => ValueView::Ptr(*p),
            FfiValue::Stash(stash) => ValueView::OwnedPtr(stash@),
            FfiValue::TrampolineCallback(t) => ValueView::TrampolineCallback {
                closure: t.closure.spec_ptr(),
                ffi_args: t.args(),
            },
            FfiValue::Void => ValueView::Void,
        }
    }
}

impl FfiValue {
    /// The same value in the other notation. A callback has none: its
    /// parts do not say which kind of trampoline they belong to.
    pub fn from_cif(value: Value) -> (r: Self)
        requires
            !(value is TrampolineCallback),
        ensures
            r@ == value@,
            value matches Value::OwnedPtr(owned) ==> (r matches FfiValue::Stash(stash)
                && stash.spec_ptr() == owned.ptr),
    {
        match value {
            Value::U8(v) => FfiValue::U8(v),
            Value::I8(v) => FfiValue::I8(v),
            Value::U16(v) => FfiValue::U16(v),
            Value::I16(v) => FfiValue::I16(v),
            Value::U32(v) => FfiValue::U32(v),
            Value::I32(v) => FfiValue::I32(v),
            Value::U64(v) => FfiValue::U64(v),
            Value::I64(v) => FfiValue::I64(v),
            Value::F32(v) => FfiValue::F32(v),
            Value::F64(v) => FfiValue::F64(v),
            Value::Ptr(p) => FfiValue::Ptr(p),
            Value::OwnedPtr(owned) => FfiValue::Stash(Stash::new(owned.ptr, owned.value)),
            Value::TrampolineCallback(_) => FfiValue::Void,
            Value::Void => FfiValue::Void,
        }
    }

    /// The value as far as a message shows it. A stash is shown as the
    /// owned pointer that it is.
    pub fn shown(&self) -> (r: Native)
        ensures
            r == self@.shown(),
    {
        match self {
            FfiValue::U8(v) => Native::U8(*v),
            FfiValue::I8(v) => Native::I8(*v),
            FfiValue::U16(v) => Native::U16(*v),
            FfiValue::I16(v) => Native::I16(*v),
            FfiValue::U32(v) => Native::U32(*v),
            FfiValue::I32(v) => Native::I32(*v),
            FfiValue::U64(v) => Native::U64(*v),
            FfiValue::I64(v) => Native::I64(*v),
            FfiValue::F32(v) => Native::F32(*v),
            FfiValue::F64(v) => Native::F64(*v),
            FfiValue::Ptr(p) => Native::Ptr(*p),
            FfiValue::Stash(_) => Native::OwnedPtr,
            FfiValue::TrampolineCallback(_) => Native::TrampolineCallback,
            FfiValue::Void => Native::Void,
        }
    }

    /// The address of the value's data, which the native call interface
    /// reads the argument from. Every datum has an address, which is not
    /// null. `Void` has no data and gives the null address, and nothing
    /// else does. A callback has several arguments and none of them is
    /// asked for here.
    pub fn as_raw_ptr(&self) -> (r: usize)
        requires
            !(self is TrampolineCallback),
        ensures
            (r == 0) == (self is Void),
    {
        match self {
            FfiValue::U8(value) => crate::cif::address_of(value),
            FfiValue::I8(value) => crate::cif::address_of(value),
            FfiValue::U16(value) => crate::cif::address_of(value),
            FfiValue::I16(value) => crate::cif::address_of(value),
            FfiValue::U32(value) => crate::cif::address_of(value),
            FfiValue::I32(value) => crate::cif::address_of(value),
            FfiValue::U64(value) => crate::cif::address_of(value),
            FfiValue::I64(value) => crate::cif::address_of(value),
            FfiValue::F32(value) => crate::cif::address_of(value),
            FfiValue::F64(value) => crate::cif::address_of(value),
            FfiValue::Ptr(ptr) => crate::cif::address_of(ptr),
            FfiValue::Stash(stash) => crate::cif::address_of(stash.pointer_ref()),
            FfiValue::TrampolineCallback(_) => 0,
            FfiValue::Void => 0,
        }
    }

    /// The address that a borrowed pointer holds. Any other value is
    /// refused.
    pub fn as_ptr(&self, subject: Subject) -> (r: Result<usize, Error<'static>>)
        ensures
            self matches FfiValue::Ptr(p) ==> r == Ok::<usize, Error<'static>>(*p),
            !(self is Ptr) ==> r == Err::<usize, Error<'static>>(
                Error::NotPointer { subject, native: self@.shown() },
            ),
    {
        match self {
            FfiValue::Ptr(ptr) => Ok(*ptr),
            _ => Err(Error::NotPointer { subject, native: self.shown() }),
        }
    }

    /// The address that a borrowed pointer holds, unless it is null.
    pub fn as_non_null_ptr(&self, subject: Subject) -> (r: Result<Option<usize>, Error<'static>>)
        ensures
            self matches FfiValue::Ptr(p) ==> r == Ok::<Option<usize>, Error<'static>>(
                if *p == 0 {
                    None
                } else {
                    Some(*p)
                },
            ),
            !(self is Ptr) ==> r == Err::<Option<usize>, Error<'static>>(
                Error::NotPointer { subject, native: self@.shown() },
            ),
    {
        let ptr = self.as_ptr(subject)?;
        Ok(
            if ptr == 0 {
                None
            } else {
                Some(ptr)
            },
        )
    }

    /// The scripting number of a numeric primitive.
    pub fn to_number(&self) -> (r: Result<Double, Error<'static>>)
        ensures
            number_of(self@) matches Some(n) ==> r == Ok::<Double, Error<'static>>(n),
            number_of(self@) is None ==> r == Err::<Double, Error<'static>>(
                Error::NotNumeric { native: self@.shown() },
            ),
    {
        match self {
            FfiValue::I8(v) => Ok(Double::from_i64(*v as i64)),
            FfiValue::U8(v) => Ok(Double::from_u64(*v as u64)),
            FfiValue::I16(v) => Ok(Double::from_i64(*v as i64)),
            FfiValue::U16(v) => Ok(Double::from_u64(*v as u64)),
            FfiValue::I32(v) => Ok(Double::from_i64(*v as i64)),
            FfiValue::U32(v) => Ok(Double::from_u64(*v as u64)),
            FfiValue::I64(v) => Ok(Double::from_i64(*v)),
            FfiValue::U64(v) => Ok(Double::from_u64(*v)),
            FfiValue::F32(v) => Ok(v.to_double()),
            FfiValue::F64(v) => Ok(*v),
            _ => Err(Error::NotNumeric { native: self.shown() }),
        }
    }

    /// How many arguments of a native call the value takes up.
    pub open spec fn arity(&self) -> nat {
        match self {
            FfiValue::TrampolineCallback(t) => t.args().len(),
            _ => 1,
        }
    }

    /// Appends the value to the arguments of a native call: one
    /// argument, or, for a callback with a trampoline, one for each of
    /// the references that [`TrampolineCallbackValue::arg_refs`] hands
    /// out, in their order. Each argument is the address of the datum,
    /// which the call interface reads it from.
    pub fn append_libffi_args<'a>(&'a self, args: &mut Vec<libffi::middle::Arg<'a>>)
        ensures
            final(args)@.len() == old(args)@.len() + self.arity(),
            final(args)@.subrange(0, old(args)@.len() as int) == old(args)@,
    {
        let ghost before = args@;
        match self {
            FfiValue::TrampolineCallback(trampoline) => {
                let refs = trampoline.arg_refs();
                let mut i: usize = 0;
                while i < refs.len()
                    invariant
                        i <= refs@.len(),
                        args@.len() == before.len() + i,
                        args@.subrange(0, before.len() as int) == before,
                    decreases refs.len() - i,
                {
                    args.push(libffi_arg(refs[i]));
                    assert(args@.subrange(0, before.len() as int) =~= before);
                    i += 1;
                }
            },
            other => {
                args.push(other.to_libffi_arg());
                assert(args@.subrange(0, before.len() as int) =~= before);
            },
        }
    }

    /// The value as one argument of a native call.
    pub fn to_libffi_arg<'a>(&'a self) -> (r: libffi::middle::Arg<'a>)
        requires
            !(self is TrampolineCallback),
    {
        match self {
            FfiValue::U8(value) => libffi_arg(value),
            FfiValue::I8(value) => libffi_arg(value),
            FfiValue::U16(value) => libffi_arg(value),
            FfiValue::I16(value) => libffi_arg(value),
            FfiValue::U32(value) => libffi_arg(value),
            FfiValue::I32(value) => libffi_arg(value),
            FfiValue::U64(value) => libffi_arg(value),
            FfiValue::I64(value) => libffi_arg(value),
            FfiValue::F32(value) => libffi_arg(value),
            FfiValue::F64(value) => libffi_arg(value),
            FfiValue::Ptr(ptr) => libffi_arg(ptr),
            FfiValue::Stash(stash) => libffi_arg(stash.pointer_ref()),
            FfiValue::TrampolineCallback(t) => libffi_arg(&t.trampoline_ptr),
            FfiValue::Void => libffi_arg(&()),
        }
    }

    /// The stash of a value that has one.
    pub fn stash(&self) -> (r: Option<&Stash>)
        ensures
            self matches FfiValue::Stash(s) ==> r == Some(s),
            !(self is Stash) ==> r is None,
    {
        match self {
            FfiValue::Stash(stash) => Some(stash),
            _ => None,
        }
    }

    /// Encodes an argument for a native call.
    pub fn try_from<'a>(arg: &'a crate::value::Argument, handles: &HandleMap) -> (r: Result<
        Encoded,
        Error<'a>,
    >)
        ensures
            encodes(encode(arg.type_, arg.value, arg.optional, handles), r),
    {
        arg.type_.encode(&arg.value, arg.optional, handles)
    }
}

/// Something that describes how values are encoded.
pub trait FfiEncode {
    /// The descriptor that it stands for.
    spec fn described(&self) -> Type;

    fn encode<'a>(&self, value: &'a crate::value::Value, optional: bool, handles: &HandleMap) -> (r:
        Result<Encoded, Error<'a>>)
        ensures
            encodes(encode(self.described(), *value, optional, handles), r),
    ;
}

/// Something that describes how native values are decoded.
pub trait FfiDecode {
    /// The descriptor that it stands for.
    spec fn decoded_as(&self) -> Type;

    fn decode(&self, ffi_value: &FfiValue) -> (r: Result<Converted, Error<'static>>)
        ensures
            converts(decode(self.decoded_as(), ffi_value@), r),
    ;
}

impl FfiEncode for Type {
    open spec fn described(&self) -> Type {
        *self
    }

    fn encode<'a>(&self, value: &'a crate::value::Value, optional: bool, handles: &HandleMap) -> (r:
        Result<Encoded, Error<'a>>) {
        Value::encode(self, value, optional, handles)
    }
}

impl FfiDecode for Type {
    open spec fn decoded_as(&self) -> Type {
        *self
    }

    fn decode(&self, ffi_value: &FfiValue) -> (r: Result<Converted, Error<'static>>) {
        match self {
            Type::Integer(_) | Type::Float(_) => {
                let number = ffi_value.to_number()?;
                Ok(Converted::Value(crate::value::Value::Number(number)))
            },
            Type::Boolean => match ffi_value {
                FfiValue::U8(b) => Ok(Converted::Value(crate::value::Value::Boolean(*b != 0))),
                _ => Err(Error::NotNumeric { native: ffi_value.shown() }),
            },
            Type::String(t) => match ffi_value.as_non_null_ptr(Subject::String)? {
                None => Ok(Converted::Value(crate::value::Value::Null)),
                Some(ptr) => Ok(Converted::Text { ptr, owned: !t.is_borrowed }),
            },
            Type::GObject(t) => match ffi_value.as_non_null_ptr(Subject::GObject)? {
                None => Ok(Converted::Value(crate::value::Value::Null)),
                Some(ptr) => Ok(
                    Converted::Object(crate::value::Acquire::GObject { ptr, owned: !t.is_borrowed }),
                ),
            },
            Type::Boxed(t) => match ffi_value.as_non_null_ptr(Subject::Boxed)? {
                None => Ok(Converted::Value(crate::value::Value::Null)),
                Some(ptr) => Ok(
                    Converted::Object(
                        crate::value::Acquire::Boxed {
                            ptr,
                            value_type: None,
                            owned: !t.is_borrowed,
                        },
                    ),
                ),
            },
            Type::Fundamental(t) => match ffi_value.as_non_null_ptr(Subject::Fundamental)? {
                None => Ok(Converted::Value(crate::value::Value::Null)),
                Some(ptr) => Ok(
                    Converted::Object(
                        crate::value::Acquire::Fundamental { ptr, owned: !t.is_borrowed },
                    ),
                ),
            },
            Type::Null | Type::Undefined => Ok(Converted::Value(crate::value::Value::Null)),
            Type::Array(_) | Type::Ref(_) | Type::Callback(_) | Type::Struct(_) => Err(
                Error::UnsupportedType { operation: crate::error::Operation::Decode },
            ),
        }
    }
}

} // verus!
