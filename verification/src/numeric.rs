//! One treatment for the ten native numeric primitives.
//!
//! Each primitive converts from and to a scripting number and to a
//! call-ready value, and a vector of it is a kind of owned storage. A
//! descriptor picks the primitive; what is then done with it is the
//! visitor's business, so that no user has to spell out the eight integer
//! and two floating-point cases again.

use vstd::prelude::*;
use crate::cif::{OwnedPtr, Storage, StorageView, Value, ValueView};
use crate::error::Error;
use crate::memory::{
    bytes_of, field, lemma_bytes_of_len, lemma_value_of_bound, lemma_value_of_bytes, load, to_bytes,
    value_of, ByteOrder,
};
use vstd::arithmetic::power2::{lemma2_to64, lemma2_to64_rest};
use crate::number::{lemma_nearest_truncates_to_itself, lemma_single_survives_as_double};
use crate::number::{Double, Single};
use crate::types::{FloatSize, FloatType, IntegerSign, IntegerSize, IntegerType, NativeTag};

verus! {

/// The scripting number nearest to an integer.
pub open spec fn int_number(v: int) -> Double {
    Double { bits: Double::nearest(v) as u64 }
}

/// The scripting number that a numeric call-ready value converts to: an
/// integer gives the double nearest to it, a single the double of the
/// same value, a double itself. Other values give none.
pub open spec fn number_of(v: ValueView) -> Option<Double> {
    match v {
        ValueView::U8(x) => Some(int_number(x as int)),
        ValueView::I8(x) => Some(int_number(x as int)),
        ValueView::U16(x) => Some(int_number(x as int)),
        ValueView::I16(x) => Some(int_number(x as int)),
        ValueView::U32(x) => Some(int_number(x as int)),
        ValueView::I32(x) => Some(int_number(x as int)),
        ValueView::U64(x) => Some(int_number(x as int)),
        ValueView::I64(x) => Some(int_number(x as int)),
        ValueView::F32(x) => Some(Double { bits: x.widened() as u64 }),
        ValueView::F64(x) => Some(x),
        _ => None,
    }
}

/// The call-ready value of a scripting number under a numeric primitive:
/// for an integer primitive the number rounded toward zero and brought
/// into the primitive's range, zero where it is not a number; for the
/// single-precision primitive the single nearest to it; for the
/// double-precision primitive the number itself. No number is a pointer:
/// under the pointer primitive every number gives the null pointer.
pub open spec fn primitive_of(tag: NativeTag, n: Double) -> ValueView {
    match tag {
        NativeTag::U8 => ValueView::U8(n.cast(0, 0xff) as u8),
        NativeTag::I8 => ValueView::I8(n.cast(-0x80, 0x7f) as i8),
        NativeTag::U16 => ValueView::U16(n.cast(0, 0xffff) as u16),
        NativeTag::I16 => ValueView::I16(n.cast(-0x8000, 0x7fff) as i16),
        NativeTag::U32 => ValueView::U32(n.cast(0, 0xffff_ffff) as u32),
        NativeTag::I32 => ValueView::I32(n.cast(-0x8000_0000, 0x7fff_ffff) as i32),
        NativeTag::U64 => ValueView::U64(n.cast(0, 0xffff_ffff_ffff_ffff) as u64),
        NativeTag::I64 => ValueView::I64(
            n.cast(-0x8000_0000_0000_0000, 0x7fff_ffff_ffff_ffff) as i64,
        ),
        NativeTag::F32 => ValueView::F32(Single { bits: n.narrowed() as u32 }),
        NativeTag::F64 => ValueView::F64(n),
        NativeTag::Pointer => ValueView::Ptr(0),
    }
}

/// The scripting numbers that a piece of storage holds, if it is a
/// vector of the given primitive.
pub open spec fn stored_numbers(storage: StorageView, tag: NativeTag) -> Option<Seq<Double>> {
    match (storage, tag) {
        (StorageView::U8Vec(s), NativeTag::U8) => Some(
            Seq::new(s.len(), |i: int| int_number(s[i] as int)),
        ),
        (StorageView::I8Vec(s), NativeTag::I8) => Some(
            Seq::new(s.len(), |i: int| int_number(s[i] as int)),
        ),
        (StorageView::U16Vec(s), NativeTag::U16) => Some(
            Seq::new(s.len(), |i: int| int_number(s[i] as int)),
        ),
        (StorageView::I16Vec(s), NativeTag::I16) => Some(
            Seq::new(s.len(), |i: int| int_number(s[i] as int)),
        ),
        (StorageView::U32Vec(s), NativeTag::U32) => Some(
            Seq::new(s.len(), |i: int| int_number(s[i] as int)),
        ),
        (StorageView::I32Vec(s), NativeTag::I32) => Some(
            Seq::new(s.len(), |i: int| int_number(s[i] as int)),
        ),
        (StorageView::U64Vec(s), NativeTag::U64) => Some(
            Seq::new(s.len(), |i: int| int_number(s[i] as int)),
        ),
        (StorageView::I64Vec(s), NativeTag::I64) => Some(
            Seq::new(s.len(), |i: int| int_number(s[i] as int)),
        ),
        (StorageView::F32Vec(s), NativeTag::F32) => Some(
            Seq::new(s.len(), |i: int| Double { bits: s[i].widened() as u64 }),
        ),
        (StorageView::F64Vec(s), NativeTag::F64) => Some(s),
        _ => None,
    }
}

/// The integer that an integer primitive holds.
pub open spec fn integer_of(v: ValueView) -> Option<int> {
    match v {
        ValueView::U8(x) => Some(x as int),
        ValueView::I8(x) => Some(x as int),
        ValueView::U16(x) => Some(x as int),
        ValueView::I16(x) => Some(x as int),
        ValueView::U32(x) => Some(x as int),
        ValueView::I32(x) => Some(x as int),
        ValueView::U64(x) => Some(x as int),
        ValueView::I64(x) => Some(x as int),
        _ => None,
    }
}

/// An integer primitive of magnitude below 2 to the 53, which every
/// integer of at most 32 bits is, converts to a scripting number and
/// back to itself.
pub proof fn lemma_integer_survives_as_number(v: ValueView)
    requires
        integer_of(v) matches Some(x) && -0x20_0000_0000_0000 < x < 0x20_0000_0000_0000,
    ensures
        primitive_of(v.native_tag()->0, number_of(v)->0) == v,
{
    lemma_nearest_truncates_to_itself(integer_of(v)->0);
}

/// A double-precision primitive is the scripting number that it converts
/// to.
pub proof fn lemma_double_survives_as_number(d: Double)
    ensures
        primitive_of(NativeTag::F64, number_of(ValueView::F64(d))->0) == ValueView::F64(d),
{
}

/// A single-precision primitive that is a number converts to a scripting
/// number and back to itself.
pub proof fn lemma_single_survives_as_number(s: Single)
    requires
        !s.is_nan(),
    ensures
        primitive_of(NativeTag::F32, number_of(ValueView::F32(s))->0) == ValueView::F32(s),
{
    lemma_single_survives_as_double(s);
}

/// The number of bytes that a primitive takes in memory.
pub open spec fn tag_width(tag: NativeTag) -> nat {
    match tag {
        NativeTag::U8 | NativeTag::I8 => 1,
        NativeTag::U16 | NativeTag::I16 => 2,
        NativeTag::U32 | NativeTag::I32 | NativeTag::F32 => 4,
        NativeTag::U64 | NativeTag::I64 | NativeTag::F64 => 8,
        NativeTag::Pointer => (usize::BITS / 8) as nat,
    }
}

/// The primitive that bytes in memory hold: an unsigned integer as the
/// bytes spell it in the given order, a signed one in two's complement, a
/// floating-point number by its bit pattern, a pointer by its address.
pub open spec fn primitive_at(tag: NativeTag, bytes: Seq<u8>, order: ByteOrder) -> ValueView {
    let raw = value_of(bytes, order);
    match tag {
        NativeTag::U8 => ValueView::U8(raw as u8),
        NativeTag::I8 => ValueView::I8(
            (if raw >= 0x80 {
                raw - 0x100
            } else {
                raw as int
            }) as i8,
        ),
        NativeTag::U16 => ValueView::U16(raw as u16),
        NativeTag::I16 => ValueView::I16(
            (if raw >= 0x8000 {
                raw - 0x1_0000
            } else {
                raw as int
            }) as i16,
        ),
        NativeTag::U32 => ValueView::U32(raw as u32),
        NativeTag::I32 => ValueView::I32(
            (if raw >= 0x8000_0000 {
                raw - 0x1_0000_0000
            } else {
                raw as int
            }) as i32,
        ),
        NativeTag::U64 => ValueView::U64(raw as u64),
        NativeTag::I64 => ValueView::I64(
            (if raw >= 0x8000_0000_0000_0000 {
                raw - 0x1_0000_0000_0000_0000
            } else {
                raw as int
            }) as i64,
        ),
        NativeTag::F32 => ValueView::F32(Single { bits: raw as u32 }),
        NativeTag::F64 => ValueView::F64(Double { bits: raw as u64 }),
        NativeTag::Pointer => ValueView::Ptr(raw as usize),
    }
}

/// The number that the bytes of a primitive spell.
pub open spec fn primitive_raw(v: ValueView) -> nat {
    match v {
        ValueView::U8(x) => x as nat,
        ValueView::I8(x) => (if x < 0 {
            x + 0x100
        } else {
            x as int
        }) as nat,
        ValueView::U16(x) => x as nat,
        ValueView::I16(x) => (if x < 0 {
            x + 0x1_0000
        } else {
            x as int
        }) as nat,
        ValueView::U32(x) => x as nat,
        ValueView::I32(x) => (if x < 0 {
            x + 0x1_0000_0000
        } else {
            x as int
        }) as nat,
        ValueView::U64(x) => x as nat,
        ValueView::I64(x) => (if x < 0 {
            x + 0x1_0000_0000_0000_0000
        } else {
            x as int
        }) as nat,
        ValueView::F32(x) => x.bits as nat,
        ValueView::F64(x) => x.bits as nat,
        ValueView::Ptr(p) => p as nat,
        _ => 0,
    }
}

/// The bytes of a primitive in memory, in the given order.
pub open spec fn primitive_bytes(v: ValueView, order: ByteOrder) -> Seq<u8> {
    match v.native_tag() {
        Some(tag) => bytes_of(primitive_raw(v), tag_width(tag), order),
        None => Seq::empty(),
    }
}

/// A numeric primitive comes back from its bytes in memory, whichever
/// the byte order.
pub proof fn lemma_primitive_round_trip(v: ValueView, order: ByteOrder)
    requires
        number_of(v) is Some,
    ensures
        primitive_bytes(v, order).len() == tag_width(v.native_tag()->0),
        primitive_at(v.native_tag()->0, primitive_bytes(v, order), order) == v,
{
    lemma2_to64();
    lemma2_to64_rest();
    let tag = v.native_tag()->0;
    lemma_bytes_of_len(primitive_raw(v), tag_width(tag), order);
    lemma_value_of_bytes(primitive_raw(v), tag_width(tag), order);
}

/// The storage that holds, for each of the numbers, its call-ready
/// primitive.
pub open spec fn stored_primitives(tag: NativeTag, numbers: Seq<Double>) -> StorageView {
    match tag {
        NativeTag::U8 => StorageView::U8Vec(
            Seq::new(numbers.len(), |i: int| primitive_of(NativeTag::U8, numbers[i])->U8_0),
        ),
        NativeTag::I8 => StorageView::I8Vec(
            Seq::new(numbers.len(), |i: int| primitive_of(NativeTag::I8, numbers[i])->I8_0),
        ),
        NativeTag::U16 => StorageView::U16Vec(
            Seq::new(numbers.len(), |i: int| primitive_of(NativeTag::U16, numbers[i])->U16_0),
        ),
        NativeTag::I16 => StorageView::I16Vec(
            Seq::new(numbers.len(), |i: int| primitive_of(NativeTag::I16, numbers[i])->I16_0),
        ),
        NativeTag::U32 => StorageView::U32Vec(
            Seq::new(numbers.len(), |i: int| primitive_of(NativeTag::U32, numbers[i])->U32_0),
        ),
        NativeTag::I32 => StorageView::I32Vec(
            Seq::new(numbers.len(), |i: int| primitive_of(NativeTag::I32, numbers[i])->I32_0),
        ),
        NativeTag::U64 => StorageView::U64Vec(
            Seq::new(numbers.len(), |i: int| primitive_of(NativeTag::U64, numbers[i])->U64_0),
        ),
        NativeTag::I64 => StorageView::I64Vec(
            Seq::new(numbers.len(), |i: int| primitive_of(NativeTag::I64, numbers[i])->I64_0),
        ),
        NativeTag::F32 => StorageView::F32Vec(
            Seq::new(numbers.len(), |i: int| primitive_of(NativeTag::F32, numbers[i])->F32_0),
        ),
        NativeTag::F64 => StorageView::F64Vec(
            Seq::new(numbers.len(), |i: int| primitive_of(NativeTag::F64, numbers[i])->F64_0),
        ),
        NativeTag::Pointer => StorageView::Unit,
    }
}

/// A native numeric primitive.
pub trait NumericPrimitive: Copy + Sized {
    /// The primitive under which the native call interface knows it.
    spec fn tag() -> NativeTag;

    /// The call-ready value that holds a value of this primitive.
    spec fn cif(self) -> ValueView;

    /// The owned storage that holds values of this primitive.
    spec fn stored(values: Seq<Self>) -> StorageView;

    fn from_number(n: Double) -> (r: Self)
        ensures
            r.cif() == primitive_of(Self::tag(), n),
    ;

    fn to_number(self) -> (r: Double)
        ensures
            Some(r) == number_of(self.cif()),
    ;

    fn native_tag() -> (r: NativeTag)
        ensures
            r == Self::tag(),
    ;

    fn to_cif_value(self) -> (r: Value)
        ensures
            r@ == self.cif(),
            r@.native_tag() == Some(Self::tag()),
    ;

    fn into_storage(values: Vec<Self>) -> (r: Storage)
        ensures
            r@ == Self::stored(values@),
    ;

    /// Reads a value of this primitive from memory.
    fn read_from_ptr(memory: &[u8], offset: usize, order: ByteOrder) -> (r: Self)
        requires
            offset + tag_width(Self::tag()) <= memory@.len(),
        ensures
            r.cif() == primitive_at(
                Self::tag(),
                field(memory@, offset as int, tag_width(Self::tag()) as int),
                order,
            ),
    ;

    /// The bytes of a value of this primitive in memory.
    fn write_to_ptr(self, order: ByteOrder) -> (r: Vec<u8>)
        ensures
            r@ == primitive_bytes(self.cif(), order),
    ;

    /// Values that are the primitives of some numbers are stored as the
    /// storage of those numbers' primitives.
    proof fn lemma_stored(values: Seq<Self>, numbers: Seq<Double>)
        requires
            values.len() == numbers.len(),
            forall|i: int|
                0 <= i < values.len() ==> (#[trigger] values[i]).cif() == primitive_of(
                    Self::tag(),
                    numbers[i],
                ),
        ensures
            Self::stored(values) == stored_primitives(Self::tag(), numbers),
    ;

    /// The values in a piece of storage, if it holds values of this
    /// primitive.
    fn downcast_vec(storage: &Storage) -> (r: Option<&Vec<Self>>)
        ensures
            r matches Some(values) ==> storage@ == Self::stored(values@) && stored_numbers(
                storage@,
                Self::tag(),
            ) == Some(Seq::new(values@.len(), |i: int| number_of(values@[i].cif())->0)),
            r is None ==> stored_numbers(storage@, Self::tag()) is None,
    ;
}

impl NumericPrimitive for u8 {
    open spec fn tag() -> NativeTag {
        NativeTag::U8
    }

    open spec fn cif(self) -> ValueView {
        ValueView::U8(self)
    }

    open spec fn stored(values: Seq<Self>) -> StorageView {
        StorageView::U8Vec(values)
    }

    fn read_from_ptr(memory: &[u8], offset: usize, order: ByteOrder) -> (r: Self) {
        proof {
            lemma_value_of_bound(field(memory@, offset as int, 1), order);
            lemma2_to64();
            lemma2_to64_rest();
        }
        let raw = load(memory, offset, 1, order);
        raw as u8
    }

    fn write_to_ptr(self, order: ByteOrder) -> (r: Vec<u8>) {
        to_bytes(self as u64, 1, order)
    }

    proof fn lemma_stored(values: Seq<Self>, numbers: Seq<Double>) {
        assert(values =~= Seq::new(
            numbers.len(),
            |i: int| primitive_of(NativeTag::U8, numbers[i])->U8_0,
        )) by {
            assert forall|i: int| 0 <= i < values.len() implies values[i] == primitive_of(
                NativeTag::U8,
                numbers[i],
            )->U8_0 by {
                assert(values[i].cif() == primitive_of(NativeTag::U8, numbers[i]));
            }
        }
    }

    fn from_number(n: Double) -> (r: Self) {
        n.to_integer(IntegerType { size: IntegerSize::_8, sign: IntegerSign::Unsigned }) as u8
    }

    fn to_number(self) -> (r: Double) {
        Double::from_u64(self as u64)
    }

    fn native_tag() -> (r: NativeTag) {
        NativeTag::U8
    }

    fn to_cif_value(self) -> (r: Value) {
        Value::U8(self)
    }

    fn into_storage(values: Vec<Self>) -> (r: Storage) {
        Storage::U8Vec(values)
    }

    fn downcast_vec(storage: &Storage) -> (r: Option<&Vec<Self>>) {
        match storage {
            Storage::U8Vec(values) => {
                assert(Seq::new(values@.len(), |i: int| int_number(values@[i] as int))
                    =~= Seq::new(values@.len(), |i: int| number_of(values@[i].cif())->0));
                Some(values)
            },
            _ => None,
        }
    }
}

impl NumericPrimitive for i8 {
    open spec fn tag() -> NativeTag {
        NativeTag::I8
    }

    open spec fn cif(self) -> ValueView {
        ValueView::I8(self)
    }

    open spec fn stored(values: Seq<Self>) -> StorageView {
        StorageView::I8Vec(values)
    }

    fn read_from_ptr(memory: &[u8], offset: usize, order: ByteOrder) -> (r: Self) {
        proof {
            lemma_value_of_bound(field(memory@, offset as int, 1), order);
            lemma2_to64();
            lemma2_to64_rest();
        }
        let raw = load(memory, offset, 1, order);
        if raw >= 0x80 {
            (raw as i128 - 0x100) as i8
        } else {
            raw as i8
        }
    }

    fn write_to_ptr(self, order: ByteOrder) -> (r: Vec<u8>) {
        let raw: u64 = if self < 0 {
            (self as i128 + 0x100) as u64
        } else {
            self as u64
        };
        to_bytes(raw, 1, order)
    }

    proof fn lemma_stored(values: Seq<Self>, numbers: Seq<Double>) {
        assert(values =~= Seq::new(
            numbers.len(),
            |i: int| primitive_of(NativeTag::I8, numbers[i])->I8_0,
        )) by {
            assert forall|i: int| 0 <= i < values.len() implies values[i] == primitive_of(
                NativeTag::I8,
                numbers[i],
            )->I8_0 by {
                assert(values[i].cif() == primitive_of(NativeTag::I8, numbers[i]));
            }
        }
    }

    fn from_number(n: Double) -> (r: Self) {
        n.to_integer(IntegerType { size: IntegerSize::_8, sign: IntegerSign::Signed }) as i8
    }

    fn to_number(self) -> (r: Double) {
        Double::from_i64(self as i64)
    }

    fn native_tag() -> (r: NativeTag) {
        NativeTag::I8
    }

    fn to_cif_value(self) -> (r: Value) {
        Value::I8(self)
    }

    fn into_storage(values: Vec<Self>) -> (r: Storage) {
        Storage::I8Vec(values)
    }

    fn downcast_vec(storage: &Storage) -> (r: Option<&Vec<Self>>) {
        match storage {
            Storage::I8Vec(values) => {
                assert(Seq::new(values@.len(), |i: int| int_number(values@[i] as int))
                    =~= Seq::new(values@.len(), |i: int| number_of(values@[i].cif())->0));
                Some(values)
            },
            _ => None,
        }
    }
}

impl NumericPrimitive for u16 {
    open spec fn tag() -> NativeTag {
        NativeTag::U16
    }

    open spec fn cif(self) -> ValueView {
        ValueView::U16(self)
    }

    open spec fn stored(values: Seq<Self>) -> StorageView {
        StorageView::U16Vec(values)
    }

    fn read_from_ptr(memory: &[u8], offset: usize, order: ByteOrder) -> (r: Self) {
        proof {
            lemma_value_of_bound(field(memory@, offset as int, 2), order);
            lemma2_to64();
            lemma2_to64_rest();
        }
        let raw = load(memory, offset, 2, order);
        raw as u16
    }

    fn write_to_ptr(self, order: ByteOrder) -> (r: Vec<u8>) {
        to_bytes(self as u64, 2, order)
    }

    proof fn lemma_stored(values: Seq<Self>, numbers: Seq<Double>) {
        assert(values =~= Seq::new(
            numbers.len(),
            |i: int| primitive_of(NativeTag::U16, numbers[i])->U16_0,
        )) by {
            assert forall|i: int| 0 <= i < values.len() implies values[i] == primitive_of(
                NativeTag::U16,
                numbers[i],
            )->U16_0 by {
                assert(values[i].cif() == primitive_of(NativeTag::U16, numbers[i]));
            }
        }
    }

    fn from_number(n: Double) -> (r: Self) {
        n.to_integer(IntegerType { size: IntegerSize::_16, sign: IntegerSign::Unsigned }) as u16
    }

    fn to_number(self) -> (r: Double) {
        Double::from_u64(self as u64)
    }

    fn native_tag() -> (r: NativeTag) {
        NativeTag::U16
    }

    fn to_cif_value(self) -> (r: Value) {
        Value::U16(self)
    }

    fn into_storage(values: Vec<Self>) -> (r: Storage) {
        Storage::U16Vec(values)
    }

    fn downcast_vec(storage: &Storage) -> (r: Option<&Vec<Self>>) {
        match storage {
            Storage::U16Vec(values) => {
                assert(Seq::new(values@.len(), |i: int| int_number(values@[i] as int))
                    =~= Seq::new(values@.len(), |i: int| number_of(values@[i].cif())->0));
                Some(values)
            },
            _ => None,
        }
    }
}

impl NumericPrimitive for i16 {
    open spec fn tag() -> NativeTag {
        NativeTag::I16
    }

    open spec fn cif(self) -> ValueView {
        ValueView::I16(self)
    }

    open spec fn stored(values: Seq<Self>) -> StorageView {
        StorageView::I16Vec(values)
    }

    fn read_from_ptr(memory: &[u8], offset: usize, order: ByteOrder) -> (r: Self) {
        proof {
            lemma_value_of_bound(field(memory@, offset as int, 2), order);
            lemma2_to64();
            lemma2_to64_rest();
        }
        let raw = load(memory, offset, 2, order);
        if raw >= 0x8000 {
            (raw as i128 - 0x1_0000) as i16
        } else {
            raw as i16
        }
    }

    fn write_to_ptr(self, order: ByteOrder) -> (r: Vec<u8>) {
        let raw: u64 = if self < 0 {
            (self as i128 + 0x1_0000) as u64
        } else {
            self as u64
        };
        to_bytes(raw, 2, order)
    }

    proof fn lemma_stored(values: Seq<Self>, numbers: Seq<Double>) {
        assert(values =~= Seq::new(
            numbers.len(),
            |i: int| primitive_of(NativeTag::I16, numbers[i])->I16_0,
        )) by {
            assert forall|i: int| 0 <= i < values.len() implies values[i] == primitive_of(
                NativeTag::I16,
                numbers[i],
            )->I16_0 by {
                assert(values[i].cif() == primitive_of(NativeTag::I16, numbers[i]));
            }
        }
    }

    fn from_number(n: Double) -> (r: Self) {
        n.to_integer(IntegerType { size: IntegerSize::_16, sign: IntegerSign::Signed }) as i16
    }

    fn to_number(self) -> (r: Double) {
        Double::from_i64(self as i64)
    }

    fn native_tag() -> (r: NativeTag) {
        NativeTag::I16
    }

    fn to_cif_value(self) -> (r: Value) {
        Value::I16(self)
    }

    fn into_storage(values: Vec<Self>) -> (r: Storage) {
        Storage::I16Vec(values)
    }

    fn downcast_vec(storage: &Storage) -> (r: Option<&Vec<Self>>) {
        match storage {
            Storage::I16Vec(values) => {
                assert(Seq::new(values@.len(), |i: int| int_number(values@[i] as int))
                    =~= Seq::new(values@.len(), |i: int| number_of(values@[i].cif())->0));
                Some(values)
            },
            _ => None,
        }
    }
}

impl NumericPrimitive for u32 {
    open spec fn tag() -> NativeTag {
        NativeTag::U32
    }

    open spec fn cif(self) -> ValueView {
        ValueView::U32(self)
    }

    open spec fn stored(values: Seq<Self>) -> StorageView {
        StorageView::U32Vec(values)
    }

    fn read_from_ptr(memory: &[u8], offset: usize, order: ByteOrder) -> (r: Self) {
        proof {
            lemma_value_of_bound(field(memory@, offset as int, 4), order);
            lemma2_to64();
            lemma2_to64_rest();
        }
        let raw = load(memory, offset, 4, order);
        raw as u32
    }

    fn write_to_ptr(self, order: ByteOrder) -> (r: Vec<u8>) {
        to_bytes(self as u64, 4, order)
    }

    proof fn lemma_stored(values: Seq<Self>, numbers: Seq<Double>) {
        assert(values =~= Seq::new(
            numbers.len(),
            |i: int| primitive_of(NativeTag::U32, numbers[i])->U32_0,
        )) by {
            assert forall|i: int| 0 <= i < values.len() implies values[i] == primitive_of(
                NativeTag::U32,
                numbers[i],
            )->U32_0 by {
                assert(values[i].cif() == primitive_of(NativeTag::U32, numbers[i]));
            }
        }
    }

    fn from_number(n: Double) -> (r: Self) {
        n.to_integer(IntegerType { size: IntegerSize::_32, sign: IntegerSign::Unsigned }) as u32
    }

    fn to_number(self) -> (r: Double) {
        Double::from_u64(self as u64)
    }

    fn native_tag() -> (r: NativeTag) {
        NativeTag::U32
    }

    fn to_cif_value(self) -> (r: Value) {
        Value::U32(self)
    }

    fn into_storage(values: Vec<Self>) -> (r: Storage) {
        Storage::U32Vec(values)
    }

    fn downcast_vec(storage: &Storage) -> (r: Option<&Vec<Self>>) {
        match storage {
            Storage::U32Vec(values) => {
                assert(Seq::new(values@.len(), |i: int| int_number(values@[i] as int))
                    =~= Seq::new(values@.len(), |i: int| number_of(values@[i].cif())->0));
                Some(values)
            },
            _ => None,
        }
    }
}

impl NumericPrimitive for i32 {
    open spec fn tag() -> NativeTag {
        NativeTag::I32
    }

    open spec fn cif(self) -> ValueView {
        ValueView::I32(self)
    }

    open spec fn stored(values: Seq<Self>) -> StorageView {
        StorageView::I32Vec(values)
    }

    fn read_from_ptr(memory: &[u8], offset: usize, order: ByteOrder) -> (r: Self) {
        proof {
            lemma_value_of_bound(field(memory@, offset as int, 4), order);
            lemma2_to64();
            lemma2_to64_rest();
        }
        let raw = load(memory, offset, 4, order);
        if raw >= 0x8000_0000 {
            (raw as i128 - 0x1_0000_0000) as i32
        } else {
            raw as i32
        }
    }

    fn write_to_ptr(self, order: ByteOrder) -> (r: Vec<u8>) {
        let raw: u64 = if self < 0 {
            (self as i128 + 0x1_0000_0000) as u64
        } else {
            self as u64
        };
        to_bytes(raw, 4, order)
    }

    proof fn lemma_stored(values: Seq<Self>, numbers: Seq<Double>) {
        assert(values =~= Seq::new(
            numbers.len(),
            |i: int| primitive_of(NativeTag::I32, numbers[i])->I32_0,
        )) by {
            assert forall|i: int| 0 <= i < values.len() implies values[i] == primitive_of(
                NativeTag::I32,
                numbers[i],
            )->I32_0 by {
                assert(values[i].cif() == primitive_of(NativeTag::I32, numbers[i]));
            }
        }
    }

    fn from_number(n: Double) -> (r: Self) {
        n.to_integer(IntegerType { size: IntegerSize::_32, sign: IntegerSign::Signed }) as i32
    }

    fn to_number(self) -> (r: Double) {
        Double::from_i64(self as i64)
    }

    fn native_tag() -> (r: NativeTag) {
        NativeTag::I32
    }

    fn to_cif_value(self) -> (r: Value) {
        Value::I32(self)
    }

    fn into_storage(values: Vec<Self>) -> (r: Storage) {
        Storage::I32Vec(values)
    }

    fn downcast_vec(storage: &Storage) -> (r: Option<&Vec<Self>>) {
        match storage {
            Storage::I32Vec(values) => {
                assert(Seq::new(values@.len(), |i: int| int_number(values@[i] as int))
                    =~= Seq::new(values@.len(), |i: int| number_of(values@[i].cif())->0));
                Some(values)
            },
            _ => None,
        }
    }
}

impl NumericPrimitive for u64 {
    open spec fn tag() -> NativeTag {
        NativeTag::U64
    }

    open spec fn cif(self) -> ValueView {
        ValueView::U64(self)
    }

    open spec fn stored(values: Seq<Self>) -> StorageView {
        StorageView::U64Vec(values)
    }

    fn read_from_ptr(memory: &[u8], offset: usize, order: ByteOrder) -> (r: Self) {
        proof {
            lemma_value_of_bound(field(memory@, offset as int, 8), order);
            lemma2_to64();
            lemma2_to64_rest();
        }
        let raw = load(memory, offset, 8, order);
        raw
    }

    fn write_to_ptr(self, order: ByteOrder) -> (r: Vec<u8>) {
        to_bytes(self, 8, order)
    }

    proof fn lemma_stored(values: Seq<Self>, numbers: Seq<Double>) {
        assert(values =~= Seq::new(
            numbers.len(),
            |i: int| primitive_of(NativeTag::U64, numbers[i])->U64_0,
        )) by {
            assert forall|i: int| 0 <= i < values.len() implies values[i] == primitive_of(
                NativeTag::U64,
                numbers[i],
            )->U64_0 by {
                assert(values[i].cif() == primitive_of(NativeTag::U64, numbers[i]));
            }
        }
    }

    fn from_number(n: Double) -> (r: Self) {
        n.to_integer(IntegerType { size: IntegerSize::_64, sign: IntegerSign::Unsigned }) as u64
    }

    fn to_number(self) -> (r: Double) {
        Double::from_u64(self)
    }

    fn native_tag() -> (r: NativeTag) {
        NativeTag::U64
    }

    fn to_cif_value(self) -> (r: Value) {
        Value::U64(self)
    }

    fn into_storage(values: Vec<Self>) -> (r: Storage) {
        Storage::U64Vec(values)
    }

    fn downcast_vec(storage: &Storage) -> (r: Option<&Vec<Self>>) {
        match storage {
            Storage::U64Vec(values) => {
                assert(Seq::new(values@.len(), |i: int| int_number(values@[i] as int))
                    =~= Seq::new(values@.len(), |i: int| number_of(values@[i].cif())->0));
                Some(values)
            },
            _ => None,
        }
    }
}

impl NumericPrimitive for i64 {
    open spec fn tag() -> NativeTag {
        NativeTag::I64
    }

    open spec fn cif(self) -> ValueView {
        ValueView::I64(self)
    }

    open spec fn stored(values: Seq<Self>) -> StorageView {
        StorageView::I64Vec(values)
    }

    fn read_from_ptr(memory: &[u8], offset: usize, order: ByteOrder) -> (r: Self) {
        proof {
            lemma_value_of_bound(field(memory@, offset as int, 8), order);
            lemma2_to64();
            lemma2_to64_rest();
        }
        let raw = load(memory, offset, 8, order);
        if raw >= 0x8000_0000_0000_0000 {
            (raw as i128 - 0x1_0000_0000_0000_0000) as i64
        } else {
            raw as i64
        }
    }

    fn write_to_ptr(self, order: ByteOrder) -> (r: Vec<u8>) {
        let raw: u64 = if self < 0 {
            (self as i128 + 0x1_0000_0000_0000_0000) as u64
        } else {
            self as u64
        };
        to_bytes(raw, 8, order)
    }

    proof fn lemma_stored(values: Seq<Self>, numbers: Seq<Double>) {
        assert(values =~= Seq::new(
            numbers.len(),
            |i: int| primitive_of(NativeTag::I64, numbers[i])->I64_0,
        )) by {
            assert forall|i: int| 0 <= i < values.len() implies values[i] == primitive_of(
                NativeTag::I64,
                numbers[i],
            )->I64_0 by {
                assert(values[i].cif() == primitive_of(NativeTag::I64, numbers[i]));
            }
        }
    }

    fn from_number(n: Double) -> (r: Self) {
        n.to_integer(IntegerType { size: IntegerSize::_64, sign: IntegerSign::Signed }) as i64
    }

    fn to_number(self) -> (r: Double) {
        Double::from_i64(self)
    }

    fn native_tag() -> (r: NativeTag) {
        NativeTag::I64
    }

    fn to_cif_value(self) -> (r: Value) {
        Value::I64(self)
    }

    fn into_storage(values: Vec<Self>) -> (r: Storage) {
        Storage::I64Vec(values)
    }

    fn downcast_vec(storage: &Storage) -> (r: Option<&Vec<Self>>) {
        match storage {
            Storage::I64Vec(values) => {
                assert(Seq::new(values@.len(), |i: int| int_number(values@[i] as int))
                    =~= Seq::new(values@.len(), |i: int| number_of(values@[i].cif())->0));
                Some(values)
            },
            _ => None,
        }
    }
}

impl NumericPrimitive for Single {
    open spec fn tag() -> NativeTag {
        NativeTag::F32
    }

    open spec fn cif(self) -> ValueView {
        ValueView::F32(self)
    }

    open spec fn stored(values: Seq<Self>) -> StorageView {
        StorageView::F32Vec(values)
    }

    fn read_from_ptr(memory: &[u8], offset: usize, order: ByteOrder) -> (r: Self) {
        proof {
            lemma_value_of_bound(field(memory@, offset as int, 4), order);
            lemma2_to64();
            lemma2_to64_rest();
        }
        let raw = load(memory, offset, 4, order);
        Single { bits: raw as u32 }
    }

    fn write_to_ptr(self, order: ByteOrder) -> (r: Vec<u8>) {
        to_bytes(self.bits as u64, 4, order)
    }

    proof fn lemma_stored(values: Seq<Self>, numbers: Seq<Double>) {
        assert(values =~= Seq::new(
            numbers.len(),
            |i: int| primitive_of(NativeTag::F32, numbers[i])->F32_0,
        )) by {
            assert forall|i: int| 0 <= i < values.len() implies values[i] == primitive_of(
                NativeTag::F32,
                numbers[i],
            )->F32_0 by {
                assert(values[i].cif() == primitive_of(NativeTag::F32, numbers[i]));
            }
        }
    }

    fn from_number(n: Double) -> (r: Self) {
        n.to_single()
    }

    fn to_number(self) -> (r: Double) {
        self.to_double()
    }

    fn native_tag() -> (r: NativeTag) {
        NativeTag::F32
    }

    fn to_cif_value(self) -> (r: Value) {
        Value::F32(self)
    }

    fn into_storage(values: Vec<Self>) -> (r: Storage) {
        Storage::F32Vec(values)
    }

    fn downcast_vec(storage: &Storage) -> (r: Option<&Vec<Self>>) {
        match storage {
            Storage::F32Vec(values) => {
                assert(Seq::new(values@.len(), |i: int| Double { bits: values@[i].widened() as u64 })
                    =~= Seq::new(values@.len(), |i: int| number_of(values@[i].cif())->0));
                Some(values)
            },
            _ => None,
        }
    }
}

impl NumericPrimitive for Double {
    open spec fn tag() -> NativeTag {
        NativeTag::F64
    }

    open spec fn cif(self) -> ValueView {
        ValueView::F64(self)
    }

    open spec fn stored(values: Seq<Self>) -> StorageView {
        StorageView::F64Vec(values)
    }

    fn read_from_ptr(memory: &[u8], offset: usize, order: ByteOrder) -> (r: Self) {
        proof {
            lemma_value_of_bound(field(memory@, offset as int, 8), order);
            lemma2_to64();
            lemma2_to64_rest();
        }
        let raw = load(memory, offset, 8, order);
        Double { bits: raw }
    }

    fn write_to_ptr(self, order: ByteOrder) -> (r: Vec<u8>) {
        to_bytes(self.bits, 8, order)
    }

    proof fn lemma_stored(values: Seq<Self>, numbers: Seq<Double>) {
        assert(values =~= Seq::new(
            numbers.len(),
            |i: int| primitive_of(NativeTag::F64, numbers[i])->F64_0,
        )) by {
            assert forall|i: int| 0 <= i < values.len() implies values[i] == primitive_of(
                NativeTag::F64,
                numbers[i],
            )->F64_0 by {
                assert(values[i].cif() == primitive_of(NativeTag::F64, numbers[i]));
            }
        }
    }

    fn from_number(n: Double) -> (r: Self) {
        n
    }

    fn to_number(self) -> (r: Double) {
        self
    }

    fn native_tag() -> (r: NativeTag) {
        NativeTag::F64
    }

    fn to_cif_value(self) -> (r: Value) {
        Value::F64(self)
    }

    fn into_storage(values: Vec<Self>) -> (r: Storage) {
        Storage::F64Vec(values)
    }

    fn downcast_vec(storage: &Storage) -> (r: Option<&Vec<Self>>) {
        match storage {
            Storage::F64Vec(values) => {
                assert(values@ =~= Seq::new(
                    values@.len(),
                    |i: int| number_of(values@[i].cif())->0,
                ));
                Some(values)
            },
            _ => None,
        }
    }
}

/// Something to be done with a numeric primitive, whichever it is.
pub trait NumericDispatch<R>: Sized {
    /// Whether `r` is what the visitor gives for the primitive `tag`.
    spec fn gives(self, tag: NativeTag, r: R) -> bool;

    fn call<T: NumericPrimitive>(self) -> (r: R)
        ensures
            self.gives(T::tag(), r),
    ;
}

impl IntegerType {
    /// Hands the visitor the primitive that this descriptor describes.
    pub fn dispatch<R, F: NumericDispatch<R>>(self, f: F) -> (r: R)
        ensures
            f.gives(self.spec_native_tag(), r),
    {
        match (self.size, self.sign) {
            (IntegerSize::_8, IntegerSign::Unsigned) => f.call::<u8>(),
            (IntegerSize::_8, IntegerSign::Signed) => f.call::<i8>(),
            (IntegerSize::_16, IntegerSign::Unsigned) => f.call::<u16>(),
            (IntegerSize::_16, IntegerSign::Signed) => f.call::<i16>(),
            (IntegerSize::_32, IntegerSign::Unsigned) => f.call::<u32>(),
            (IntegerSize::_32, IntegerSign::Signed) => f.call::<i32>(),
            (IntegerSize::_64, IntegerSign::Unsigned) => f.call::<u64>(),
            (IntegerSize::_64, IntegerSign::Signed) => f.call::<i64>(),
        }
    }

    /// Converts a scripting number to a call-ready value: the number
    /// rounded toward zero and brought into the range of the described
    /// type; zero where it is not a number.
    pub fn to_cif_value(self, number: Double) -> (r: Value)
        ensures
            r@ == primitive_of(self.spec_native_tag(), number),
            r@.native_tag() == Some(self.spec_native_tag()),
    {
        self.dispatch(ToCifValue(number))
    }

    /// The scripting numbers that an owned array of the described type
    /// holds. Storage of any other kind is refused.
    pub fn downcast_array_to_values(self, array_ptr: &OwnedPtr) -> (r: Result<
        Vec<crate::value::Value>,
        Error<'static>,
    >)
        ensures
            downcast_result(array_ptr@, self.spec_native_tag(), r),
    {
        self.dispatch(DowncastArrayToValues(array_ptr))
    }
}

impl FloatType {
    /// Hands the visitor the primitive that this descriptor describes.
    pub fn dispatch<R, F: NumericDispatch<R>>(self, f: F) -> (r: R)
        ensures
            f.gives(self.spec_native_tag(), r),
    {
        match self.size {
            FloatSize::_32 => f.call::<Single>(),
            FloatSize::_64 => f.call::<Double>(),
        }
    }

    /// Converts a scripting number to a call-ready value: the number
    /// itself, or the single-precision number nearest to it.
    pub fn to_cif_value(self, number: Double) -> (r: Value)
        ensures
            r@ == primitive_of(self.spec_native_tag(), number),
            r@.native_tag() == Some(self.spec_native_tag()),
    {
        self.dispatch(ToCifValue(number))
    }

    /// The scripting numbers that an owned array of the described type
    /// holds. Storage of any other kind is refused.
    pub fn downcast_array_to_values(self, array_ptr: &OwnedPtr) -> (r: Result<
        Vec<crate::value::Value>,
        Error<'static>,
    >)
        ensures
            downcast_result(array_ptr@, self.spec_native_tag(), r),
    {
        self.dispatch(DowncastArrayToValues(array_ptr))
    }
}

/// Converts a scripting number to a call-ready value of the primitive.
pub struct ToCifValue(pub Double);

impl NumericDispatch<Value> for ToCifValue {
    open spec fn gives(self, tag: NativeTag, r: Value) -> bool {
        r@ == primitive_of(tag, self.0) && r@.native_tag() == Some(tag)
    }

    fn call<T: NumericPrimitive>(self) -> (r: Value) {
        T::from_number(self.0).to_cif_value()
    }
}

/// What reading a primitive at `offset` of `memory` gives: the scripting
/// number of the primitive whose bytes lie there; a refusal where they
/// would lie beyond the end.
pub open spec fn read_number(
    tag: NativeTag,
    memory: Seq<u8>,
    offset: usize,
    order: ByteOrder,
) -> Result<Double, Error<'static>> {
    if offset + tag_width(tag) <= memory.len() {
        match number_of(
            primitive_at(tag, field(memory, offset as int, tag_width(tag) as int), order),
        ) {
            Some(n) => Ok(n),
            None => Err(
                Error::NotNumeric {
                    native: primitive_at(
                        tag,
                        field(memory, offset as int, tag_width(tag) as int),
                        order,
                    ).shown(),
                },
            ),
        }
    } else {
        Err(Error::OutOfBounds { offset, width: tag_width(tag) as usize })
    }
}

/// The width of a primitive in bytes.
pub struct Width;

impl NumericDispatch<usize> for Width {
    open spec fn gives(self, tag: NativeTag, r: usize) -> bool {
        r == tag_width(tag)
    }

    fn call<T: NumericPrimitive>(self) -> (r: usize) {
        match T::native_tag() {
            NativeTag::U8 | NativeTag::I8 => 1,
            NativeTag::U16 | NativeTag::I16 => 2,
            NativeTag::U32 | NativeTag::I32 | NativeTag::F32 => 4,
            NativeTag::U64 | NativeTag::I64 | NativeTag::F64 => 8,
            NativeTag::Pointer => (usize::BITS / 8) as usize,
        }
    }
}

/// Reads a primitive from memory and converts it to a scripting number.
pub struct ReadFromPtr<'a> {
    memory: &'a [u8],
    offset: usize,
    order: ByteOrder,
}

impl<'a> ReadFromPtr<'a> {
    /// A reader of the primitive at `offset` of `memory`, whose bytes
    /// lie in the given order.
    pub fn new(memory: &'a [u8], offset: usize, order: ByteOrder) -> (r: Self)
        ensures
            r.memory() == memory@,
            r.offset() == offset,
            r.order() == order,
    {
        ReadFromPtr { memory, offset, order }
    }

    pub closed spec fn order(self) -> ByteOrder {
        self.order
    }

    pub closed spec fn memory(self) -> Seq<u8> {
        self.memory@
    }

    pub closed spec fn offset(self) -> usize {
        self.offset
    }
}

impl<'a> NumericDispatch<Result<Double, Error<'static>>> for ReadFromPtr<'a> {
    open spec fn gives(self, tag: NativeTag, r: Result<Double, Error<'static>>) -> bool {
        r == read_number(tag, self.memory(), self.offset(), self.order())
    }

    fn call<T: NumericPrimitive>(self) -> (r: Result<Double, Error<'static>>) {
        let width = Width.call::<T>();
        if width > self.memory.len() || self.offset > self.memory.len() - width {
            return Err(Error::OutOfBounds { offset: self.offset, width });
        }
        Ok(T::read_from_ptr(self.memory, self.offset, self.order).to_number())
    }
}

/// Converts a scripting number to a primitive and gives its bytes.
pub struct WriteToPtr(pub Double, pub ByteOrder);

impl WriteToPtr {
    /// A writer of the number `value`, whose bytes are to lie in the
    /// given order.
    pub fn new(value: Double, order: ByteOrder) -> (r: Self)
        ensures
            r.0 == value,
            r.1 == order,
    {
        WriteToPtr(value, order)
    }
}

impl NumericDispatch<Vec<u8>> for WriteToPtr {
    open spec fn gives(self, tag: NativeTag, r: Vec<u8>) -> bool {
        r@ == primitive_bytes(primitive_of(tag, self.0), self.1) && r@.len() == tag_width(tag)
    }

    fn call<T: NumericPrimitive>(self) -> (r: Vec<u8>) {
        let value = T::from_number(self.0);
        proof {
            lemma_bytes_of_len(primitive_raw(value.cif()), tag_width(T::tag()), self.1);
        }
        value.write_to_ptr(self.1)
    }
}

/// Stores the call-ready primitives of numbers.
pub struct IntoStorage<'a>(pub &'a Vec<Double>);

impl<'a> NumericDispatch<Storage> for IntoStorage<'a> {
    open spec fn gives(self, tag: NativeTag, r: Storage) -> bool {
        r@ == stored_primitives(tag, self.0@)
    }

    fn call<T: NumericPrimitive>(self) -> (r: Storage) {
        let numbers = self.0;
        let mut values: Vec<T> = Vec::new();
        let mut i: usize = 0;
        while i < numbers.len()
            invariant
                i <= numbers.len(),
                values@.len() == i,
                forall|j: int|
                    0 <= j < i ==> (#[trigger] values@[j]).cif() == primitive_of(
                        T::tag(),
                        numbers@[j],
                    ),
            decreases numbers.len() - i,
        {
            values.push(T::from_number(numbers[i]));
            i += 1;
        }
        proof {
            T::lemma_stored(values@, numbers@);
        }
        T::into_storage(values)
    }
}

/// Whether `r` is what reading an owned array as numbers of the primitive
/// `tag` gives: the numbers, one scripting value each, in their order; or
/// a refusal where the storage is no vector of that primitive.
pub open spec fn downcast_result(
    storage: StorageView,
    tag: NativeTag,
    r: Result<Vec<crate::value::Value>, Error<'static>>,
) -> bool {
    match stored_numbers(storage, tag) {
        Some(numbers) => r matches Ok(values) && values@.len() == numbers.len() && forall|i: int|
            0 <= i < numbers.len() ==> values@[i] == crate::value::Value::Number(numbers[i]),
        None => r == Err::<Vec<crate::value::Value>, Error<'static>>(Error::StorageMismatch),
    }
}

/// Reads an owned array back as scripting numbers.
pub struct DowncastArrayToValues<'a>(pub &'a OwnedPtr);

impl<'a> NumericDispatch<Result<Vec<crate::value::Value>, Error<'static>>> for DowncastArrayToValues<'a> {
    open spec fn gives(self, tag: NativeTag, r: Result<Vec<crate::value::Value>, Error<'static>>) -> bool {
        downcast_result(self.0@, tag, r)
    }

    fn call<T: NumericPrimitive>(self) -> (r: Result<Vec<crate::value::Value>, Error<'static>>) {
        match T::downcast_vec(&self.0.value) {
            None => Err(Error::StorageMismatch),
            Some(items) => {
                let ghost numbers = stored_numbers(self.0@, T::tag())->0;
                let mut values: Vec<crate::value::Value> = Vec::new();
                let mut i: usize = 0;
                while i < items.len()
                    invariant
                        i <= items.len(),
                        numbers == Seq::new(
                            items@.len(),
                            |i: int| number_of(items@[i].cif())->0,
                        ),
                        values@.len() == i,
                        forall|j: int|
                            0 <= j < i ==> values@[j] == crate::value::Value::Number(numbers[j]),
                    decreases items.len() - i,
                {
                    let number = items[i].to_number();
                    values.push(crate::value::Value::Number(number));
                    i += 1;
                }
                Ok(values)
            },
        }
    }
}

} // verus!
