//! What holds of encoding and decoding together.

use vstd::prelude::*;
use vstd::utf8::encode_utf8;
use crate::cif::decode::decode;
use crate::cif::encode::{array_numbers, encode, encode_array, item_is_not, EncodedView};
use crate::cif::{StorageView, ValueView};
use crate::error::{Error, Expected, Kind, Subject};
use crate::managed::HandleMap;
use crate::number::{lemma_integer_round_trip, Double};
use crate::numeric::{number_of, primitive_of};
use crate::render::debug;
use crate::text::{c_string, c_text, lemma_c_string_refuses_nul, lemma_c_string_round_trip, lemma_first_index};
use crate::types::{ArrayType, FloatSize, IntegerType, Type};
use crate::value::from_glib::{converts, ConvertedView};
use crate::value::{Converted, Value};

verus! {

/// A number without fractional part that the described integer type
/// holds is encoded under the descriptor and decoded again to itself.
/// Negative zero is no such number: it comes back as zero.
pub proof fn lemma_integer_encode_decode(
    ty: IntegerType,
    n: Double,
    optional: bool,
    handles: &HandleMap,
)
    requires
        n.is_integral(),
        n.bits != 0x8000_0000_0000_0000,
        ty.holds(n.truncated()),
    ensures
        encode(Type::Integer(ty), Value::Number(n), optional, handles) == Ok::<EncodedView, Error<'static>>(
            EncodedView::Value(primitive_of(ty.spec_native_tag(), n)),
        ),
        decode(Type::Integer(ty), primitive_of(ty.spec_native_tag(), n)) == Ok::<
            ConvertedView,
            Error<'static>,
        >(ConvertedView::Number(n)),
{
    lemma_integer_round_trip(n, ty);
}

/// A number is encoded under a double-precision descriptor and decoded
/// again to itself, whatever number it is.
pub proof fn lemma_double_encode_decode(n: Double, optional: bool, handles: &HandleMap)
    ensures
        encode(
            Type::Float(crate::types::FloatType { size: FloatSize::_64 }),
            Value::Number(n),
            optional,
            handles,
        ) == Ok::<EncodedView, Error<'static>>(EncodedView::Value(ValueView::F64(n))),
        decode(Type::Float(crate::types::FloatType { size: FloatSize::_64 }), ValueView::F64(n))
            == Ok::<ConvertedView, Error<'static>>(ConvertedView::Number(n)),
{
}

/// Text without a NUL byte is encoded under a string descriptor as a
/// NUL-terminated buffer that reads back as the text; text with a NUL
/// byte is refused.
pub proof fn lemma_string_encode(ty: Type, s: String, optional: bool, handles: &HandleMap)
    requires
        ty is String,
    ensures
        !encode_utf8(s@).contains(0) ==> encode(ty, Value::String(s), optional, handles) == Ok::<
            EncodedView,
            Error<'static>,
        >(EncodedView::Value(ValueView::OwnedPtr(StorageView::CString(encode_utf8(s@).push(0)))))
            && c_text(encode_utf8(s@).push(0)) == Some(s@),
        encode_utf8(s@).contains(0) ==> encode(ty, Value::String(s), optional, handles)
            matches Err(Error::InteriorNul { .. }),
{
    lemma_c_string_round_trip(s@);
    lemma_c_string_refuses_nul(s@);
}

/// `Null` and `Undefined` are encoded under the descriptor of an object,
/// a boxed value or a string as the null pointer, and never refused.
pub proof fn lemma_null_encodes_as_null_pointer(
    ty: Type,
    value: Value,
    optional: bool,
    handles: &HandleMap,
)
    requires
        ty is GObject || ty is Boxed || ty is String,
        value.is_nullish(),
    ensures
        encode(ty, value, optional, handles) == Ok::<EncodedView, Error<'static>>(
            EncodedView::Value(ValueView::Ptr(0)),
        ),
{
}

/// A value that is no number is refused under a numeric descriptor, with
/// a mismatch whose message names the descriptor as `integer` or `float`.
/// The one exception is `Null` or `Undefined` for an optional argument,
/// which stands for zero.
pub proof fn lemma_non_number_is_refused(
    ty: Type,
    value: Value,
    optional: bool,
    handles: &HandleMap,
)
    requires
        ty is Integer || ty is Float,
        !(value is Number),
        !(optional && value.is_nullish()),
    ensures
        encode(ty, value, optional, handles) == Err::<EncodedView, Error<'static>>(
            Error::TypeMismatch {
                expected: Expected::Number,
                subject: if ty is Integer {
                    Subject::Integer
                } else {
                    Subject::Float
                },
                actual: &value,
                index: None,
            },
        ),
        ty is Integer ==> encode(ty, value, optional, handles)->Err_0.text(Seq::empty())
            == "Expected a Number for integer type, got "@ + debug(value, Seq::empty()),
        ty is Float ==> encode(ty, value, optional, handles)->Err_0.text(Seq::empty())
            == "Expected a Number for float type, got "@ + debug(value, Seq::empty()),
{
    reveal_strlit("Expected ");
    reveal_strlit("a Number");
    reveal_strlit(" for ");
    reveal_strlit("integer");
    reveal_strlit("float");
    reveal_strlit(" type, got ");
    reveal_strlit("Expected a Number for integer type, got ");
    reveal_strlit("Expected a Number for float type, got ");
    let shown = debug(value, Seq::empty());
    assert("Expected "@ + "a Number"@ + " for "@ + "integer"@ + " type, got "@ + shown
        + Seq::<char>::empty() =~= "Expected a Number for integer type, got "@ + shown);
    assert("Expected "@ + "a Number"@ + " for "@ + "float"@ + " type, got "@ + shown
        + Seq::<char>::empty() =~= "Expected a Number for float type, got "@ + shown);
}

/// An array of numbers whose item at `k` is the first that is no number
/// is refused under a numeric item descriptor, with a mismatch that names
/// `k`.
pub proof fn lemma_array_names_the_item(
    ty: ArrayType,
    items: Vec<Value>,
    k: usize,
    handles: &HandleMap,
)
    requires
        *ty.item_type is Integer || *ty.item_type is Float,
        k < items@.len(),
        !(items@[k as int] is Number),
        forall|j: int| 0 <= j < k ==> items@[j] is Number,
    ensures
        encode_array(ty, Value::Array(items), handles) == Err::<StorageView, Error<'static>>(
            Error::TypeMismatch {
                expected: Expected::Number,
                subject: if *ty.item_type is Integer {
                    Subject::IntegerItem
                } else {
                    Subject::FloatItem
                },
                actual: &items@[k as int],
                index: Some(k),
            },
        ),
{
    lemma_first_index(item_is_not(items@, Kind::Number), 0, items@.len() as int, k as int);
}

/// An encoded value is of the primitive
/// that its descriptor is passed as.
pub proof fn lemma_encoded_as_described(
    ty: Type,
    value: Value,
    optional: bool,
    handles: &HandleMap,
)
    ensures
        encode(ty, value, optional, handles) matches Ok(EncodedView::Value(v)) ==> v.native_tag()
            == Some(ty.spec_native_tag()),
{
}

/// Decoding looks at nothing but the native value and the descriptor:
/// two decodings of one numeric value under one descriptor give the same
/// number.
pub proof fn lemma_decode_is_repeatable(
    ty: Type,
    value: ValueView,
    first: Result<Converted, Error<'static>>,
    second: Result<Converted, Error<'static>>,
)
    requires
        ty is Integer || ty is Float,
        converts(decode(ty, value), first),
        converts(decode(ty, value), second),
    ensures
        first == second,
{
}

} // verus!
