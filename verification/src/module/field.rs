//! Access to the fields of a native structure at byte offsets.
//!
//! Integers, floating-point numbers and booleans are read and written.
//! Strings, objects and boxed values are read only: the field holds a
//! pointer, and what lies behind it is for the caller to fetch.

use vstd::prelude::*;
use crate::error::{Error, Operation, Subject};
use crate::managed::{HandleMap, NativeHandle};
use crate::memory::{
    field, lemma_field_of_with_field, lemma_value_of_bound, load, store, value_of, with_field,
    ByteOrder,
};
use crate::number::Double;
use crate::numeric::{
    lemma_primitive_round_trip, number_of, primitive_bytes, primitive_of, read_number, tag_width,
    ReadFromPtr, Width, WriteToPtr,
};
use crate::types::{NativeTag, Type};
use crate::value::from_glib::{converts, ConvertedView};
use crate::value::{Acquire, Converted, Value};

verus! {

/// What the pointer in a field leads to: null for the null address, else
/// what `found` makes of the address.
pub open spec fn read_pointer(
    memory: Seq<u8>,
    offset: usize,
    order: ByteOrder,
    found: spec_fn(usize) -> ConvertedView,
) -> Result<ConvertedView, Error<'static>> {
    let width = tag_width(NativeTag::Pointer);
    if offset + width <= memory.len() {
        let ptr = value_of(field(memory, offset as int, width as int), order) as usize;
        if ptr == 0 {
            Ok(ConvertedView::Null)
        } else {
            Ok(found(ptr))
        }
    } else {
        Err(Error::OutOfBounds { offset, width: width as usize })
    }
}

/// What a pointer to text leads to.
pub open spec fn found_text() -> spec_fn(usize) -> ConvertedView {
    |ptr: usize| ConvertedView::Text { ptr, owned: false }
}

/// What a pointer to an object leads to.
pub open spec fn found_object() -> spec_fn(usize) -> ConvertedView {
    |ptr: usize| ConvertedView::Object(Acquire::GObject { ptr, owned: false })
}

/// What a pointer to a boxed value leads to.
pub open spec fn found_boxed() -> spec_fn(usize) -> ConvertedView {
    |ptr: usize| ConvertedView::Object(Acquire::Boxed { ptr, value_type: None, owned: false })
}

/// What reading the field at `offset` gives under a descriptor. A field
/// that does not lie within the memory is refused, and so is a
/// descriptor of any other shape than those named above.
pub open spec fn read_field(memory: Seq<u8>, ty: Type, offset: usize, order: ByteOrder) -> Result<
    ConvertedView,
    Error<'static>,
> {
    match ty {
        Type::Integer(t) => match read_number(t.spec_native_tag(), memory, offset, order) {
            Ok(n) => Ok(ConvertedView::Number(n)),
            Err(e) => Err(e),
        },
        Type::Float(t) => match read_number(t.spec_native_tag(), memory, offset, order) {
            Ok(n) => Ok(ConvertedView::Number(n)),
            Err(e) => Err(e),
        },
        Type::Boolean => if offset < memory.len() {
            Ok(ConvertedView::Boolean(memory[offset as int] != 0))
        } else {
            Err(Error::OutOfBounds { offset, width: 1 })
        },
        Type::String(_) => read_pointer(memory, offset, order, found_text()),
        Type::GObject(_) => read_pointer(memory, offset, order, found_object()),
        Type::Boxed(_) => read_pointer(memory, offset, order, found_boxed()),
        _ => Err(Error::UnsupportedType { operation: Operation::Read }),
    }
}

/// The bytes that writing a value under a descriptor puts into the
/// field. Numbers are written under numeric descriptors and booleans
/// under the boolean one, as one byte that is one for true; nothing else
/// is written.
pub open spec fn field_bytes(ty: Type, value: Value, order: ByteOrder) -> Result<Seq<u8>, Error<'static>> {
    match (ty, value) {
        (Type::Integer(t), Value::Number(n)) => Ok(
            primitive_bytes(primitive_of(t.spec_native_tag(), n), order),
        ),
        (Type::Float(t), Value::Number(n)) => Ok(
            primitive_bytes(primitive_of(t.spec_native_tag(), n), order),
        ),
        (Type::Boolean, Value::Boolean(b)) => Ok(
            seq![if b {
                1u8
            } else {
                0u8
            }],
        ),
        _ => Err(Error::UnsupportedType { operation: Operation::Write }),
    }
}

/// What writing a value into the field at `offset` makes of the memory;
/// a refusal where nothing is written.
pub open spec fn write_field(
    memory: Seq<u8>,
    ty: Type,
    offset: usize,
    value: Value,
    order: ByteOrder,
) -> Result<Seq<u8>, Error<'static>> {
    match field_bytes(ty, value, order) {
        Ok(bytes) => if offset + bytes.len() <= memory.len() {
            Ok(with_field(memory, offset as int, bytes))
        } else {
            Err(Error::OutOfBounds { offset, width: bytes.len() as usize })
        },
        Err(e) => Err(e),
    }
}

/// The number of bytes that a field of the described shape takes.
pub fn field_width(ty: &Type) -> (r: usize)
    ensures
        r == tag_width(ty.spec_native_tag()),
{
    match ty.to_native_type_tag() {
        NativeTag::U8 | NativeTag::I8 => 1,
        NativeTag::U16 | NativeTag::I16 => 2,
        NativeTag::U32 | NativeTag::I32 | NativeTag::F32 => 4,
        NativeTag::U64 | NativeTag::I64 | NativeTag::F64 => 8,
        NativeTag::Pointer => (usize::BITS / 8) as usize,
    }
}

/// The address of a field of the object behind a handle: the address of
/// the object and the offset. A handle that no longer resolves is
/// refused, and so are an object at the null address and an offset that
/// leads beyond the address space.
pub open spec fn field_address(
    handles: &HandleMap,
    object_id: NativeHandle,
    offset: usize,
    operation: Operation,
) -> Result<usize, Error<'static>> {
    match handles.ptr_of(object_id) {
        None => Err(Error::GarbageCollected { subject: Subject::Object, index: None }),
        Some(ptr) => if ptr == 0 {
            Err(Error::NullPointer { operation })
        } else if ptr + offset > usize::MAX {
            Err(Error::OutOfBounds { offset, width: 0 })
        } else {
            Ok((ptr + offset) as usize)
        },
    }
}

/// Finds the address of a field of a managed object.
pub fn field_ptr(handles: &HandleMap, object_id: NativeHandle, offset: usize, operation: Operation) -> (r:
    Result<usize, Error<'static>>)
    ensures
        r == field_address(handles, object_id, offset, operation),
{
    match handles.get_ptr(object_id) {
        None => Err(Error::GarbageCollected { subject: Subject::Object, index: None }),
        Some(ptr) => {
            if ptr == 0 {
                Err(Error::NullPointer { operation })
            } else if offset > usize::MAX - ptr {
                Err(Error::OutOfBounds { offset, width: 0 })
            } else {
                Ok(ptr + offset)
            }
        },
    }
}

fn load_pointer(memory: &[u8], offset: usize, order: ByteOrder) -> (r: Result<usize, Error<'static>>)
    ensures
        offset + tag_width(NativeTag::Pointer) <= memory@.len() ==> r == Ok::<usize, Error<'static>>(
            value_of(
                field(memory@, offset as int, tag_width(NativeTag::Pointer) as int),
                order,
            ) as usize,
        ),
        offset + tag_width(NativeTag::Pointer) > memory@.len() ==> r == Err::<usize, Error<'static>>(
            Error::OutOfBounds { offset, width: tag_width(NativeTag::Pointer) as usize },
        ),
{
    let width: usize = (usize::BITS / 8) as usize;
    if width > memory.len() || offset > memory.len() - width {
        return Err(Error::OutOfBounds { offset, width });
    }
    proof {
        lemma_value_of_bound(field(memory@, offset as int, width as int), order);
        vstd::arithmetic::power2::lemma2_to64();
        vstd::arithmetic::power2::lemma2_to64_rest();
    }
    let raw = load(memory, offset, width, order);
    Ok(raw as usize)
}

/// Reads the field at `offset` of the structure whose bytes are
/// `memory`, in the byte order of the machine that the structure lives
/// on.
pub fn read(memory: &[u8], ty: &Type, offset: usize, order: ByteOrder) -> (r: Result<
    Converted,
    Error<'static>,
>)
    ensures
        converts(read_field(memory@, *ty, offset, order), r),
{
    match ty {
        Type::Integer(int_type) => {
            let number = int_type.dispatch(ReadFromPtr::new(memory, offset, order))?;
            Ok(Converted::Value(Value::Number(number)))
        },
        Type::Float(float_type) => {
            let number = float_type.dispatch(ReadFromPtr::new(memory, offset, order))?;
            Ok(Converted::Value(Value::Number(number)))
        },
        Type::Boolean => {
            if offset >= memory.len() {
                return Err(Error::OutOfBounds { offset, width: 1 });
            }
            Ok(Converted::Value(Value::Boolean(memory[offset] != 0)))
        },
        Type::String(_) => {
            let ptr = load_pointer(memory, offset, order)?;
            if ptr == 0 {
                return Ok(Converted::Value(Value::Null));
            }
            Ok(Converted::Text { ptr, owned: false })
        },
        Type::GObject(_) => {
            let ptr = load_pointer(memory, offset, order)?;
            if ptr == 0 {
                return Ok(Converted::Value(Value::Null));
            }
            Ok(Converted::Object(Acquire::GObject { ptr, owned: false }))
        },
        Type::Boxed(_) => {
            let ptr = load_pointer(memory, offset, order)?;
            if ptr == 0 {
                return Ok(Converted::Value(Value::Null));
            }
            Ok(Converted::Object(Acquire::Boxed { ptr, value_type: None, owned: false }))
        },
        _ => Err(Error::UnsupportedType { operation: Operation::Read }),
    }
}

/// Writes a value into the field at `offset` of the structure whose
/// bytes are `memory`. On a refusal the memory is as it was.
pub fn write(
    memory: &mut Vec<u8>,
    ty: &Type,
    offset: usize,
    value: &Value,
    order: ByteOrder,
) -> (r: Result<(), Error<'static>>)
    ensures
        write_field(old(memory)@, *ty, offset, *value, order) matches Ok(after) ==> r is Ok
            && final(memory)@ == after,
        write_field(old(memory)@, *ty, offset, *value, order) matches Err(e) ==> r == Err::<
            (),
            Error<'static>,
        >(e) && final(memory)@ == old(memory)@,
{
    let bytes = match (ty, value) {
        (Type::Integer(int_type), Value::Number(n)) => int_type.dispatch(WriteToPtr::new(*n, order)),
        (Type::Float(float_type), Value::Number(n)) => float_type.dispatch(WriteToPtr::new(*n, order)),
        (Type::Boolean, Value::Boolean(b)) => {
            let mut one: Vec<u8> = Vec::new();
            one.push(
                if *b {
                    1
                } else {
                    0
                },
            );
            assert(one@ =~= seq![if *b {
                1u8
            } else {
                0u8
            }]);
            one
        },
        _ => return Err(Error::UnsupportedType { operation: Operation::Write }),
    };
    if bytes.len() > memory.len() || offset > memory.len() - bytes.len() {
        return Err(Error::OutOfBounds { offset, width: bytes.len() });
    }
    store(memory, offset, &bytes);
    Ok(())
}

/// A number written under a numeric descriptor is read back, under the
/// same descriptor, at the same offset and in the same byte order, as the
/// number that its native form converts to.
pub proof fn lemma_write_then_read(
    memory: Seq<u8>,
    ty: Type,
    offset: usize,
    n: Double,
    order: ByteOrder,
)
    requires
        ty is Integer || ty is Float,
        write_field(memory, ty, offset, Value::Number(n), order) is Ok,
    ensures
        read_field(
            write_field(memory, ty, offset, Value::Number(n), order)->Ok_0,
            ty,
            offset,
            order,
        ) == Ok::<ConvertedView, Error<'static>>(
            ConvertedView::Number(number_of(primitive_of(ty.spec_native_tag(), n))->0),
        ),
{
    let tag = ty.spec_native_tag();
    let v = primitive_of(tag, n);
    lemma_primitive_round_trip(v, order);
    lemma_field_of_with_field(memory, offset as int, primitive_bytes(v, order));
}

/// A boolean that was written is read back.
pub proof fn lemma_write_then_read_boolean(memory: Seq<u8>, offset: usize, b: bool, order: ByteOrder)
    requires
        write_field(memory, Type::Boolean, offset, Value::Boolean(b), order) is Ok,
    ensures
        read_field(
            write_field(memory, Type::Boolean, offset, Value::Boolean(b), order)->Ok_0,
            Type::Boolean,
            offset,
            order,
        ) == Ok::<ConvertedView, Error<'static>>(ConvertedView::Boolean(b)),
{
    let bytes = seq![if b {
        1u8
    } else {
        0u8
    }];
    lemma_field_of_with_field(memory, offset as int, bytes);
    let after = with_field(memory, offset as int, bytes);
    assert(field(after, offset as int, 1)[0] == after[offset as int]);
}

/// Writing leaves every byte outside the field as it was.
pub proof fn lemma_write_is_local(
    memory: Seq<u8>,
    ty: Type,
    offset: usize,
    value: Value,
    order: ByteOrder,
    i: int,
)
    requires
        write_field(memory, ty, offset, value, order) is Ok,
        0 <= i < memory.len(),
        i < offset || i >= offset + field_bytes(ty, value, order)->Ok_0.len(),
    ensures
        write_field(memory, ty, offset, value, order)->Ok_0.len() == memory.len(),
        write_field(memory, ty, offset, value, order)->Ok_0[i] == memory[i],
{
}

} // verus!
