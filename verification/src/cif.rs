//! Call-ready values and the storage they own.
//!
//! One [`Value`] stands for one argument or result slot of a native call.
//! A value whose pointer refers to storage made for the call owns that
//! storage: the pointer is good for as long as the value lives, so the
//! caller keeps every encoded value alive until the call has returned.
//!
//! What such a value *is*, in contracts, is what it keeps alive. Where
//! the storage lies is decided when it is made and is no part of the
//! model.

use vstd::prelude::*;

pub mod callback;
pub mod decode;
pub mod encode;
pub mod laws;

pub use encode::Encoded;

use crate::managed::NativeHandle;
use crate::number::{Double, Single};
use crate::render::Native;
use crate::types::{CallbackTrampoline, NativeTag};

verus! {

/// The address of a buffer. Calls `Vec::as_ptr`. A vector's pointer is
/// never null, whether or not it has allocated; that is all that is
/// claimed of the address.
#[verifier::external_body]
pub(crate) fn buffer_address<T>(buffer: &Vec<T>) -> (r: usize)
    ensures
        r != 0,
{
    buffer.as_ptr() as usize
}

/// The address of a value. Calls `NonNull::from`, which turns a reference
/// into a pointer that is never null, and gives the pointer's address as
/// a number. That the address is not null is all that is claimed of it.
#[verifier::external_body]
pub(crate) fn address_of<T>(value: &T) -> (r: usize)
    ensures
        r != 0,
{
    std::ptr::NonNull::from(value).addr().get()
}

/// Storage that an owned pointer keeps alive.
#[derive(Debug, PartialEq, Eq)]
pub enum Storage {
    /// Nothing: the pointer refers to something kept alive elsewhere.
    Unit,
    U8Vec(Vec<u8>),
    I8Vec(Vec<i8>),
    U16Vec(Vec<u16>),
    I16Vec(Vec<i16>),
    U32Vec(Vec<u32>),
    I32Vec(Vec<i32>),
    U64Vec(Vec<u64>),
    I64Vec(Vec<i64>),
    F32Vec(Vec<Single>),
    F64Vec(Vec<Double>),
    /// NUL-terminated strings, and the array of their addresses, which
    /// ends with a null address.
    StringArray(Vec<Vec<u8>>, Vec<usize>),
    /// Handles of managed objects, and the array of their addresses.
    ObjectArray(Vec<NativeHandle>, Vec<usize>),
    /// One NUL-terminated string.
    CString(Vec<u8>),
    /// An encoded value through which the callee writes.
    Boxed(Box<Value>),
    /// One pointer-sized slot into which the callee writes a pointer.
    PtrStorage(Vec<usize>),
    /// A buffer of bytes for the callee to fill.
    Buffer(Vec<u8>),
    /// A hash table of the object system and what its entries point
    /// into.
    HashTable(HashTableData),
    /// The data of a callback, kept alive by native code.
    Callback(usize),
}

/// What the keys or the values of a hash table point into.
#[derive(Debug, PartialEq, Eq)]
pub enum HashTableStorage {
    /// NUL-terminated strings.
    Strings(Vec<Vec<u8>>),
    /// Nothing: integers are kept in the table itself.
    Integers,
}

/// A hash table of the object system, by its address, with the storage of
/// its keys and values.
#[derive(Debug, PartialEq, Eq)]
pub struct HashTableData {
    pub handle: usize,
    pub keys: HashTableStorage,
    pub values: HashTableStorage,
}

/// What a [`HashTableStorage`] holds.
pub enum HashTableStorageView {
    Strings(Seq<Seq<u8>>),
    Integers,
}

impl View for HashTableStorage {
    type V = HashTableStorageView;

    open spec fn view(&self) -> HashTableStorageView {
        match self {
            HashTableStorage::Strings(strings) => HashTableStorageView::Strings(
                buffers_view(strings@),
            ),
            HashTableStorage::Integers => HashTableStorageView::Integers,
        }
    }
}

/// A pointer together with what it points into.
#[derive(Debug, PartialEq, Eq)]
pub struct OwnedPtr {
    pub ptr: usize,
    pub value: Storage,
}

/// The extra native arguments that make up a callback, in the order in
/// which the native signature takes them.
#[derive(Debug, PartialEq, Eq)]
pub struct TrampolineCallbackValue {
    closure: OwnedPtr,
    ffi_args: Vec<usize>,
}

/// A call-ready value.
#[derive(Debug, PartialEq, Eq)]
pub enum Value {
    U8(u8),
    I8(i8),
    U16(u16),
    I16(i16),
    U32(u32),
    I32(i32),
    U64(u64),
    I64(i64),
    F32(Single),
    F64(Double),
    /// A borrowed pointer: nothing is owed for it.
    Ptr(usize),
    /// A pointer into storage that lives as long as this value.
    OwnedPtr(OwnedPtr),
    /// A callback: no argument, or two or three, as the trampoline kind
    /// has it.
    TrampolineCallback(TrampolineCallbackValue),
    Void,
}

/// What [`Storage`] holds.
pub enum StorageView {
    Unit,
    U8Vec(Seq<u8>),
    I8Vec(Seq<i8>),
    U16Vec(Seq<u16>),
    I16Vec(Seq<i16>),
    U32Vec(Seq<u32>),
    I32Vec(Seq<i32>),
    U64Vec(Seq<u64>),
    I64Vec(Seq<i64>),
    F32Vec(Seq<Single>),
    F64Vec(Seq<Double>),
    StringArray(Seq<Seq<u8>>),
    ObjectArray(Seq<NativeHandle>, Seq<usize>),
    CString(Seq<u8>),
    Boxed(Box<ValueView>),
    PtrStorage(Seq<usize>),
    Buffer(Seq<u8>),
    HashTable { handle: usize, keys: HashTableStorageView, values: HashTableStorageView },
    Callback(usize),
}

/// What a [`Value`] is: a primitive, a borrowed pointer, what an owned
/// pointer keeps alive, or the arguments of a callback.
pub enum ValueView {
    U8(u8),
    I8(i8),
    U16(u16),
    I16(i16),
    U32(u32),
    I32(i32),
    U64(u64),
    I64(i64),
    F32(Single),
    F64(Double),
    Ptr(usize),
    OwnedPtr(StorageView),
    TrampolineCallback { closure: usize, ffi_args: Seq<usize> },
    Void,
}

/// The byte strings that a vector of buffers holds.
pub open spec fn buffers_view(buffers: Seq<Vec<u8>>) -> Seq<Seq<u8>> {
    Seq::new(buffers.len(), |i: int| buffers[i]@)
}

/// What a piece of storage holds.
pub open spec fn storage_view(storage: Storage) -> StorageView
    decreases storage,
{
    match storage {
        Storage::Unit => StorageView::Unit,
        Storage::U8Vec(v) => StorageView::U8Vec(v@),
        Storage::I8Vec(v) => StorageView::I8Vec(v@),
        Storage::U16Vec(v) => StorageView::U16Vec(v@),
        Storage::I16Vec(v) => StorageView::I16Vec(v@),
        Storage::U32Vec(v) => StorageView::U32Vec(v@),
        Storage::I32Vec(v) => StorageView::I32Vec(v@),
        Storage::U64Vec(v) => StorageView::U64Vec(v@),
        Storage::I64Vec(v) => StorageView::I64Vec(v@),
        Storage::F32Vec(v) => StorageView::F32Vec(v@),
        Storage::F64Vec(v) => StorageView::F64Vec(v@),
        Storage::StringArray(strings, _) => StorageView::StringArray(buffers_view(strings@)),
        Storage::ObjectArray(ids, ptrs) => StorageView::ObjectArray(ids@, ptrs@),
        Storage::CString(v) => StorageView::CString(v@),
        Storage::Boxed(inner) => StorageView::Boxed(Box::new(value_view(*inner))),
        Storage::PtrStorage(v) => StorageView::PtrStorage(v@),
        Storage::Buffer(v) => StorageView::Buffer(v@),
        Storage::HashTable(table) => StorageView::HashTable {
            handle: table.handle,
            keys: table.keys@,
            values: table.values@,
        },
        Storage::Callback(data) => StorageView::Callback(data),
    }
}

/// What a call-ready value is.
pub open spec fn value_view(value: Value) -> ValueView
    decreases value,
{
    match value {
        Value::U8(v) => ValueView::U8(v),
        Value::I8(v) => ValueView::I8(v),
        Value::U16(v) => ValueView::U16(v),
        Value::I16(v) => ValueView::I16(v),
        Value::U32(v) => ValueView::U32(v),
        Value::I32(v) => ValueView::I32(v),
        Value::U64(v) => ValueView::U64(v),
        Value::I64(v) => ValueView::I64(v),
        Value::F32(v) => ValueView::F32(v),
        Value::F64(v) => ValueView::F64(v),
        Value::Ptr(p) => ValueView::Ptr(p),
        Value::OwnedPtr(owned) => ValueView::OwnedPtr(storage_view(owned.value)),
        Value::TrampolineCallback(t) => ValueView::TrampolineCallback {
            closure: t.closure_ptr(),
            ffi_args: t.spec_ffi_args(),
        },
        Value::Void => ValueView::Void,
    }
}

impl View for Storage {
    type V = StorageView;

    open spec fn view(&self) -> StorageView {
        storage_view(*self)
    }
}

impl View for OwnedPtr {
    type V = StorageView;

    open spec fn view(&self) -> StorageView {
        storage_view(self.value)
    }
}

impl View for Value {
    type V = ValueView;

    open spec fn view(&self) -> ValueView {
        value_view(*self)
    }
}

impl Storage {
    /// The arrays of addresses are as long as they have to be: one
    /// address for each string, and a null address after them; one for
    /// each object. A pointer slot is one slot. A boxed value is one that
    /// has an address.
    pub open spec fn wf(&self) -> bool {
        match self {
            Storage::StringArray(strings, ptrs) => ptrs@.len() == strings@.len() + 1
                && ptrs@.last() == 0,
            Storage::ObjectArray(ids, ptrs) => ptrs@.len() == ids@.len(),
            Storage::PtrStorage(slot) => slot@.len() == 1,
            Storage::Boxed(inner) => !(**inner is TrampolineCallback) && !(**inner is Void),
            _ => true,
        }
    }
}

impl ValueView {
    /// The value as far as a message shows it.
    pub open spec fn shown(self) -> Native {
        match self {
            ValueView::U8(v) => Native::U8(v),
            ValueView::I8(v) => Native::I8(v),
            ValueView::U16(v) => Native::U16(v),
            ValueView::I16(v) => Native::I16(v),
            ValueView::U32(v) => Native::U32(v),
            ValueView::I32(v) => Native::I32(v),
            ValueView::U64(v) => Native::U64(v),
            ValueView::I64(v) => Native::I64(v),
            ValueView::F32(v) => Native::F32(v),
            ValueView::F64(v) => Native::F64(v),
            ValueView::Ptr(p) => Native::Ptr(p),
            ValueView::OwnedPtr(_) => Native::OwnedPtr,
            ValueView::TrampolineCallback { .. } => Native::TrampolineCallback,
            ValueView::Void => Native::Void,
        }
    }

    /// The primitive as which the value is passed; none for a callback,
    /// which is passed as several arguments or as none, and none for
    /// `Void`.
    pub open spec fn native_tag(self) -> Option<NativeTag> {
        match self {
            ValueView::U8(_) => Some(NativeTag::U8),
            ValueView::I8(_) => Some(NativeTag::I8),
            ValueView::U16(_) => Some(NativeTag::U16),
            ValueView::I16(_) => Some(NativeTag::I16),
            ValueView::U32(_) => Some(NativeTag::U32),
            ValueView::I32(_) => Some(NativeTag::I32),
            ValueView::U64(_) => Some(NativeTag::U64),
            ValueView::I64(_) => Some(NativeTag::I64),
            ValueView::F32(_) => Some(NativeTag::F32),
            ValueView::F64(_) => Some(NativeTag::F64),
            ValueView::Ptr(_) => Some(NativeTag::Pointer),
            ValueView::OwnedPtr(_) => Some(NativeTag::Pointer),
            ValueView::TrampolineCallback { .. } => None,
            ValueView::Void => None,
        }
    }
}

impl TrampolineCallbackValue {
    /// The extra arguments of a callback of the given kind, in order: for
    /// a closure none; for an asynchronous completion the trampoline, then
    /// the closure; for a destroy notification the closure, then the
    /// trampoline; for a drawing function the trampoline, the closure,
    /// then the function that releases the closure.
    pub open spec fn ordered_args(
        trampoline: CallbackTrampoline,
        trampoline_ptr: usize,
        closure_ptr: usize,
        unref_closure_ptr: usize,
    ) -> Seq<usize> {
        match trampoline {
            CallbackTrampoline::Closure => seq![],
            CallbackTrampoline::AsyncReady => seq![trampoline_ptr, closure_ptr],
            CallbackTrampoline::Destroy => seq![closure_ptr, trampoline_ptr],
            CallbackTrampoline::DrawFunc => seq![trampoline_ptr, closure_ptr, unref_closure_ptr],
        }
    }

    /// Puts the extra arguments of a callback in order. `trampoline_ptr`
    /// is the trampoline of the kind, `closure_ptr` the closure that it
    /// forwards to, `unref_closure_ptr` the function that releases a
    /// closure.
    pub fn new(
        trampoline: CallbackTrampoline,
        trampoline_ptr: usize,
        closure_ptr: usize,
        unref_closure_ptr: usize,
    ) -> (r: Self)
        ensures
            r.closure_ptr() == closure_ptr,
            r.spec_ffi_args() == Self::ordered_args(
                trampoline,
                trampoline_ptr,
                closure_ptr,
                unref_closure_ptr,
            ),
    {
        let mut ffi_args: Vec<usize> = Vec::new();
        match trampoline {
            CallbackTrampoline::Closure => {},
            CallbackTrampoline::AsyncReady => {
                ffi_args.push(trampoline_ptr);
                ffi_args.push(closure_ptr);
            },
            CallbackTrampoline::Destroy => {
                ffi_args.push(closure_ptr);
                ffi_args.push(trampoline_ptr);
            },
            CallbackTrampoline::DrawFunc => {
                ffi_args.push(trampoline_ptr);
                ffi_args.push(closure_ptr);
                ffi_args.push(unref_closure_ptr);
            },
        }
        assert(ffi_args@ =~= Self::ordered_args(
            trampoline,
            trampoline_ptr,
            closure_ptr,
            unref_closure_ptr,
        ));
        TrampolineCallbackValue { closure: OwnedPtr::new(Storage::Unit, closure_ptr), ffi_args }
    }

    /// The closure that the trampoline forwards to.
    pub closed spec fn closure_ptr(&self) -> usize {
        self.closure.ptr
    }

    /// The extra arguments, in order.
    pub closed spec fn spec_ffi_args(&self) -> Seq<usize> {
        self.ffi_args@
    }

    /// The extra arguments, in order.
    pub fn ffi_arg_refs(&self) -> (r: &Vec<usize>)
        ensures
            r@ == self.spec_ffi_args(),
    {
        &self.ffi_args
    }
}

impl OwnedPtr {
    /// A pointer with the storage that it points into.
    pub fn new(value: Storage, ptr: usize) -> (r: Self)
        ensures
            r.ptr == ptr,
            r.value == value,
    {
        OwnedPtr { value, ptr }
    }

    /// Whether `ptr` can be the address of a piece of storage. Storage
    /// that is made here lies at an address, which is not null: a buffer,
    /// an array of addresses, a slot, the data of a boxed value. A hash
    /// table and the data of a callback lie where native code put them.
    /// No storage, and a boxed `Void`, have the null address.
    pub open spec fn lies_at(value: Storage, ptr: usize) -> bool {
        match value {
            Storage::Unit => ptr == 0,
            Storage::HashTable(table) => ptr == table.handle,
            Storage::Callback(data) => ptr == data,
            Storage::Boxed(inner) => (ptr == 0) == (*inner is Void),
            _ => ptr != 0,
        }
    }

    /// Takes ownership of storage and points at it: at the first item of
    /// a buffer; for arrays of strings and of objects at the first
    /// address of the array of addresses; for a boxed value at the
    /// value's own data.
    pub fn from_vec(value: Storage) -> (r: Self)
        requires
            value matches Storage::Boxed(inner) ==> !(*inner is TrampolineCallback),
        ensures
            r.value == value,
            Self::lies_at(value, r.ptr),
    {
        let ptr = match &value {
            Storage::Unit => 0,
            Storage::U8Vec(v) => buffer_address(v),
            Storage::I8Vec(v) => buffer_address(v),
            Storage::U16Vec(v) => buffer_address(v),
            Storage::I16Vec(v) => buffer_address(v),
            Storage::U32Vec(v) => buffer_address(v),
            Storage::I32Vec(v) => buffer_address(v),
            Storage::U64Vec(v) => buffer_address(v),
            Storage::I64Vec(v) => buffer_address(v),
            Storage::F32Vec(v) => buffer_address(v),
            Storage::F64Vec(v) => buffer_address(v),
            Storage::StringArray(_, ptrs) => buffer_address(ptrs),
            Storage::ObjectArray(_, ptrs) => buffer_address(ptrs),
            Storage::CString(v) => buffer_address(v),
            Storage::Boxed(inner) => inner.as_ptr(),
            Storage::PtrStorage(v) => buffer_address(v),
            Storage::Buffer(v) => buffer_address(v),
            Storage::HashTable(table) => table.handle,
            Storage::Callback(data) => *data,
        };
        OwnedPtr { value, ptr }
    }
}

impl Value {
    /// The value as far as a message shows it.
    pub fn shown(&self) -> (r: Native)
        ensures
            r == self@.shown(),
    {
        match self {
            Value::U8(v) => Native::U8(*v),
            Value::I8(v) => Native::I8(*v),
            Value::U16(v) => Native::U16(*v),
            Value::I16(v) => Native::I16(*v),
            Value::U32(v) => Native::U32(*v),
            Value::I32(v) => Native::I32(*v),
            Value::U64(v) => Native::U64(*v),
            Value::I64(v) => Native::I64(*v),
            Value::F32(v) => Native::F32(*v),
            Value::F64(v) => Native::F64(*v),
            Value::Ptr(p) => Native::Ptr(*p),
            Value::OwnedPtr(_) => Native::OwnedPtr,
            Value::TrampolineCallback(_) => Native::TrampolineCallback,
            Value::Void => Native::Void,
        }
    }

    /// The address of the value's data, for the native call interface to
    /// read the argument from: of a primitive the primitive, of a pointer
    /// the pointer. Every such datum has an address, which is not null.
    /// `Void` has no data and gives the null address, and nothing else
    /// does. A callback has several arguments and none of them is asked
    /// for here.
    pub fn as_ptr(&self) -> (r: usize)
        requires
            !(self is TrampolineCallback),
        ensures
            (r == 0) == (self is Void),
    {
        match self {
            Value::U8(value) => address_of(value),
            Value::I8(value) => address_of(value),
            Value::U16(value) => address_of(value),
            Value::I16(value) => address_of(value),
            Value::U32(value) => address_of(value),
            Value::I32(value) => address_of(value),
            Value::U64(value) => address_of(value),
            Value::I64(value) => address_of(value),
            Value::F32(value) => address_of(value),
            Value::F64(value) => address_of(value),
            Value::Ptr(ptr) => address_of(ptr),
            Value::OwnedPtr(owned) => address_of(&owned.ptr),
            Value::TrampolineCallback(_) => 0,
            Value::Void => 0,
        }
    }
}

} // verus!
