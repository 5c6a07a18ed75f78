use native::error::{Error, Operation, Subject};
use native::managed::{Boxed, HandleMap, NativeValue};
use native::memory::ByteOrder;
use native::module::field::field_ptr;
use native::number::Double;
use native::numeric::{ReadFromPtr, WriteToPtr};
use native::types::{
    BoxedType, FloatSize, FloatType, GObjectType, IntegerSign, IntegerSize, IntegerType,
    StringType, Type,
};
use native::value::{Acquire, Converted, Value};

const INT8: usize = 0;
const UINT8: usize = 1;
const INT16: usize = 2;
const INT32: usize = 4;
const UINT64: usize = 8;
const FLOAT32: usize = 16;
const FLOAT64: usize = 24;
const BOOL: usize = 32;
const STRING_PTR: usize = 40;
const OBJECT_PTR: usize = 48;
const BOXED_PTR: usize = 56;
const SIZE: usize = 64;

fn zeroed() -> Vec<u8> {
    vec![0u8; SIZE]
}

fn with(offset: usize, bytes: &[u8]) -> Vec<u8> {
    let mut memory = zeroed();
    memory[offset..offset + bytes.len()].copy_from_slice(bytes);
    memory
}

fn num(x: f64) -> Value {
    Value::Number(Double::from_bits(x.to_bits()))
}

fn number_of(converted: Result<Converted, Error<'static>>) -> f64 {
    match converted {
        Ok(Converted::Value(Value::Number(n))) => f64::from_bits(n.to_bits()),
        other => panic!("Expected Value::Number, got {other:?}"),
    }
}

fn integer(size: IntegerSize, sign: IntegerSign) -> Type {
    Type::Integer(IntegerType { size, sign })
}

#[test]
fn handle_read_integer_i8() {
    let memory = with(INT8, &(-42i8).to_le_bytes());
    let int_type = integer(IntegerSize::_8, IntegerSign::Signed);
    let result = native::module::field::read(&memory, &int_type, INT8, ByteOrder::Little);

    assert!(result.is_ok());
    assert_eq!(number_of(result), -42.0);
}

#[test]
fn handle_read_integer_u8() {
    let memory = with(UINT8, &200u8.to_le_bytes());
    let int_type = integer(IntegerSize::_8, IntegerSign::Unsigned);
    let result = native::module::field::read(&memory, &int_type, UINT8, ByteOrder::Little);

    assert!(result.is_ok());
    assert_eq!(number_of(result), 200.0);
}

#[test]
fn handle_read_integer_i32() {
    let memory = with(INT32, &(-123456i32).to_le_bytes());
    let int_type = integer(IntegerSize::_32, IntegerSign::Signed);
    let result = native::module::field::read(&memory, &int_type, INT32, ByteOrder::Little);

    assert!(result.is_ok());
    assert_eq!(number_of(result), -123456.0);
}

#[test]
fn handle_read_integer_u64() {
    let memory = with(UINT64, &9999999999u64.to_le_bytes());
    let int_type = integer(IntegerSize::_64, IntegerSign::Unsigned);
    let result = native::module::field::read(&memory, &int_type, UINT64, ByteOrder::Little);

    assert!(result.is_ok());
    assert_eq!(number_of(result), 9999999999.0);
}

#[test]
fn handle_read_float_f32() {
    let memory = with(FLOAT32, &3.14f32.to_le_bytes());
    let float_type = Type::Float(FloatType { size: FloatSize::_32 });
    let result = native::module::field::read(&memory, &float_type, FLOAT32, ByteOrder::Little);

    assert!(result.is_ok());
    let n = number_of(result);
    assert!((n - 3.14).abs() < 0.001);
    assert_eq!(n, 3.14f32 as f64);
}

#[test]
fn handle_read_float_f64() {
    let memory = with(FLOAT64, &2.718281828f64.to_le_bytes());
    let float_type = Type::Float(FloatType { size: FloatSize::_64 });
    let result = native::module::field::read(&memory, &float_type, FLOAT64, ByteOrder::Little);

    assert!(result.is_ok());
    let n = number_of(result);
    assert!((n - 2.718281828).abs() < 0.0000001);
    assert_eq!(n, 2.718281828);
}

#[test]
fn handle_read_boolean_true() {
    let memory = with(BOOL, &[1]);
    let result = native::module::field::read(&memory, &Type::Boolean, BOOL, ByteOrder::Little);

    assert!(result.is_ok());
    assert!(matches!(result.unwrap(), Converted::Value(Value::Boolean(true))));
}

#[test]
fn handle_read_boolean_false() {
    let memory = zeroed();
    let result = native::module::field::read(&memory, &Type::Boolean, BOOL, ByteOrder::Little);

    assert!(result.is_ok());
    assert!(matches!(result.unwrap(), Converted::Value(Value::Boolean(false))));
}

#[test]
fn handle_read_string() {
    let cstring = native::text::to_c_string("hello world").unwrap();
    let address = cstring.as_ptr() as usize;
    let memory = with(STRING_PTR, &address.to_le_bytes());
    let string_type = Type::String(StringType::new(true));
    let result = native::module::field::read(&memory, &string_type, STRING_PTR, ByteOrder::Little);

    assert!(result.is_ok());
    assert_eq!(result, Ok(Converted::Text { ptr: address, owned: false }));
    assert_eq!(native::text::from_c_string(&cstring).unwrap(), "hello world");
}

#[test]
fn handle_read_string_null() {
    let memory = zeroed();
    let string_type = Type::String(StringType::new(true));
    let result = native::module::field::read(&memory, &string_type, STRING_PTR, ByteOrder::Little);

    assert!(result.is_ok());
    assert!(matches!(result.unwrap(), Converted::Value(Value::Null)));
}

#[test]
fn handle_read_gobject() {
    let memory = with(OBJECT_PTR, &0x7f00_1234usize.to_le_bytes());
    let gobject_type = Type::GObject(GObjectType { is_borrowed: true });
    let result = native::module::field::read(&memory, &gobject_type, OBJECT_PTR, ByteOrder::Little);

    assert!(result.is_ok());
    assert_eq!(
        result,
        Ok(Converted::Object(Acquire::GObject { ptr: 0x7f00_1234, owned: false }))
    );
}

#[test]
fn handle_read_gobject_null() {
    let memory = zeroed();
    let gobject_type = Type::GObject(GObjectType { is_borrowed: true });
    let result = native::module::field::read(&memory, &gobject_type, OBJECT_PTR, ByteOrder::Little);

    assert!(result.is_ok());
    assert!(matches!(result.unwrap(), Converted::Value(Value::Null)));
}

#[test]
fn handle_read_boxed() {
    let memory = with(BOXED_PTR, &0x7f00_5678usize.to_le_bytes());
    let boxed_type = Type::Boxed(BoxedType::new(true, "GdkRGBA".to_string(), None, None));
    let result = native::module::field::read(&memory, &boxed_type, BOXED_PTR, ByteOrder::Little);

    assert!(result.is_ok());
    assert_eq!(
        result,
        Ok(Converted::Object(Acquire::Boxed { ptr: 0x7f00_5678, value_type: None, owned: false }))
    );
}

#[test]
fn handle_read_boxed_null() {
    let memory = zeroed();
    let boxed_type = Type::Boxed(BoxedType::new(true, "GdkRGBA".to_string(), None, None));
    let result = native::module::field::read(&memory, &boxed_type, BOXED_PTR, ByteOrder::Little);

    assert!(result.is_ok());
    assert!(matches!(result.unwrap(), Converted::Value(Value::Null)));
}

#[test]
fn handle_read_unsupported_type_error() {
    let memory = zeroed();
    let result = native::module::field::read(&memory, &Type::Undefined, 0, ByteOrder::Little);

    assert!(result.is_err());
    assert_eq!(result, Err(Error::UnsupportedType { operation: Operation::Read }));
}

#[test]
fn handle_write_integer_i8() {
    let mut memory = zeroed();
    let int_type = integer(IntegerSize::_8, IntegerSign::Signed);
    let result = native::module::field::write(&mut memory, &int_type, INT8, &num(-42.0), ByteOrder::Little);

    assert!(result.is_ok());
    assert_eq!(memory[INT8] as i8, -42);
}

#[test]
fn handle_write_integer_u8() {
    let mut memory = zeroed();
    let int_type = integer(IntegerSize::_8, IntegerSign::Unsigned);
    let result = native::module::field::write(&mut memory, &int_type, UINT8, &num(200.0), ByteOrder::Little);

    assert!(result.is_ok());
    assert_eq!(memory[UINT8], 200);
}

#[test]
fn handle_write_integer_i16() {
    let mut memory = zeroed();
    let int_type = integer(IntegerSize::_16, IntegerSign::Signed);
    let result = native::module::field::write(&mut memory, &int_type, INT16, &num(-1234.0), ByteOrder::Little);

    assert!(result.is_ok());
    assert_eq!(i16::from_le_bytes([memory[INT16], memory[INT16 + 1]]), -1234);
}

#[test]
fn handle_write_integer_i32() {
    let mut memory = zeroed();
    let int_type = integer(IntegerSize::_32, IntegerSign::Signed);
    let result = native::module::field::write(&mut memory, &int_type, INT32, &num(-123456.0), ByteOrder::Little);

    assert!(result.is_ok());
    assert_eq!(i32::from_le_bytes(memory[INT32..INT32 + 4].try_into().unwrap()), -123456);
}

#[test]
fn handle_write_integer_u64() {
    let mut memory = zeroed();
    let int_type = integer(IntegerSize::_64, IntegerSign::Unsigned);
    let result = native::module::field::write(&mut memory, &int_type, UINT64, &num(9999999999.0), ByteOrder::Little);

    assert!(result.is_ok());
    assert_eq!(u64::from_le_bytes(memory[UINT64..UINT64 + 8].try_into().unwrap()), 9999999999);
}

#[test]
fn handle_write_float_f32() {
    let mut memory = zeroed();
    let float_type = Type::Float(FloatType { size: FloatSize::_32 });
    let result = native::module::field::write(&mut memory, &float_type, FLOAT32, &num(3.14), ByteOrder::Little);

    assert!(result.is_ok());
    let written = f32::from_le_bytes(memory[FLOAT32..FLOAT32 + 4].try_into().unwrap());
    assert!((written - 3.14).abs() < 0.001);
    assert_eq!(written, 3.14f64 as f32);
}

#[test]
fn handle_write_float_f64() {
    let mut memory = zeroed();
    let float_type = Type::Float(FloatType { size: FloatSize::_64 });
    let result = native::module::field::write(&mut memory, &float_type, FLOAT64, &num(2.718281828), ByteOrder::Little);

    assert!(result.is_ok());
    let written = f64::from_le_bytes(memory[FLOAT64..FLOAT64 + 8].try_into().unwrap());
    assert!((written - 2.718281828).abs() < 0.0000001);
    assert_eq!(written, 2.718281828);
}

#[test]
fn handle_write_boolean_true() {
    let mut memory = zeroed();
    let result = native::module::field::write(&mut memory, &Type::Boolean, BOOL, &Value::Boolean(true), ByteOrder::Little);

    assert!(result.is_ok());
    assert_eq!(memory[BOOL], 1);
}

#[test]
fn handle_write_boolean_false() {
    let mut memory = with(BOOL, &[1]);
    let result = native::module::field::write(&mut memory, &Type::Boolean, BOOL, &Value::Boolean(false), ByteOrder::Little);

    assert!(result.is_ok());
    assert_eq!(memory[BOOL], 0);
}

#[test]
fn handle_write_unsupported_type_error() {
    let mut memory = zeroed();
    let result = native::module::field::write(&mut memory, &Type::Undefined, 0, &Value::Null, ByteOrder::Little);

    assert!(result.is_err());
    assert_eq!(result, Err(Error::UnsupportedType { operation: Operation::Write }));
    assert_eq!(memory, zeroed());
}

#[test]
fn handle_write_type_mismatch_error() {
    let mut memory = zeroed();
    let int_type = integer(IntegerSize::_32, IntegerSign::Signed);
    let result = native::module::field::write(&mut memory, &int_type, 0, &Value::Boolean(true), ByteOrder::Little);

    assert!(result.is_err());
    assert_eq!(memory, zeroed());
}

#[test]
fn write_to_string_field_is_refused() {
    let mut memory = zeroed();
    let string_type = Type::String(StringType::new(true));
    let result = native::module::field::write(&mut memory, &string_type, STRING_PTR, &Value::String("x".to_string()), ByteOrder::Little);
    assert_eq!(result, Err(Error::UnsupportedType { operation: Operation::Write }));
}

#[test]
fn signed_byte_written_at_offset_zero_reads_back() {
    let mut memory = zeroed();
    let int_type = integer(IntegerSize::_8, IntegerSign::Signed);
    assert_eq!(native::module::field::write(&mut memory, &int_type, 0, &num(-42.0), ByteOrder::Little), Ok(()));
    assert_eq!(memory[0] as i8, -42);
    assert_eq!(memory[0], 0xd6);
    assert!(memory[1..].iter().all(|b| *b == 0));
    assert_eq!(native::module::field::read(&memory, &int_type, 0, ByteOrder::Little), Ok(Converted::Value(num(-42.0))));
}

#[test]
fn every_numeric_field_written_reads_back() {
    let cases: [(Type, f64, f64); 10] = [
        (integer(IntegerSize::_8, IntegerSign::Unsigned), 255.0, 255.0),
        (integer(IntegerSize::_8, IntegerSign::Signed), -128.0, -128.0),
        (integer(IntegerSize::_16, IntegerSign::Unsigned), 65535.9, 65535.0),
        (integer(IntegerSize::_16, IntegerSign::Signed), -32768.0, -32768.0),
        (integer(IntegerSize::_32, IntegerSign::Unsigned), 4294967295.0, 4294967295.0),
        (integer(IntegerSize::_32, IntegerSign::Signed), -2147483648.0, -2147483648.0),
        (integer(IntegerSize::_64, IntegerSign::Unsigned), 1e30, 18446744073709551615.0),
        (integer(IntegerSize::_64, IntegerSign::Signed), -9223372036854775808.0, -9223372036854775808.0),
        (Type::Float(FloatType { size: FloatSize::_32 }), 0.1, 0.1f32 as f64),
        (Type::Float(FloatType { size: FloatSize::_64 }), 0.1, 0.1),
    ];
    for (ty, written, expected) in cases {
        let mut memory = vec![0xaau8; 24];
        assert_eq!(native::module::field::write(&mut memory, &ty, 5, &num(written), ByteOrder::Little), Ok(()));
        assert_eq!(native::module::field::read(&memory, &ty, 5, ByteOrder::Little), Ok(Converted::Value(num(expected))), "{written}");
        assert!(memory[..5].iter().all(|b| *b == 0xaa));
        assert!(memory[13..].iter().all(|b| *b == 0xaa));
    }
}

#[test]
fn field_beyond_the_memory_is_refused() {
    let mut memory = vec![0u8; 4];
    let int_type = integer(IntegerSize::_32, IntegerSign::Signed);
    assert_eq!(native::module::field::read(&memory, &int_type, 0, ByteOrder::Little), Ok(Converted::Value(num(0.0))));
    assert_eq!(native::module::field::read(&memory, &int_type, 1, ByteOrder::Little), Err(Error::OutOfBounds { offset: 1, width: 4 }));
    assert_eq!(native::module::field::read(&memory, &int_type, usize::MAX, ByteOrder::Little), Err(Error::OutOfBounds { offset: usize::MAX, width: 4 }));
    assert_eq!(native::module::field::read(&memory, &Type::Boolean, 4, ByteOrder::Little), Err(Error::OutOfBounds { offset: 4, width: 1 }));
    assert_eq!(
        native::module::field::read(&memory, &Type::String(StringType::new(true)), 0, ByteOrder::Little),
        Err(Error::OutOfBounds { offset: 0, width: 8 })
    );
    assert_eq!(
        native::module::field::write(&mut memory, &int_type, 2, &num(1.0), ByteOrder::Little),
        Err(Error::OutOfBounds { offset: 2, width: 4 })
    );
    assert_eq!(memory, vec![0u8; 4]);
}

#[test]
fn reader_and_writer_visit_the_described_primitive() {
    let ty = IntegerType::new(IntegerSize::_16, IntegerSign::Signed);
    let bytes = ty.dispatch(WriteToPtr::new(Double::from_bits((-2.0f64).to_bits()), ByteOrder::Little));
    assert_eq!(bytes, vec![0xfe, 0xff]);
    let read = ty.dispatch(ReadFromPtr::new(&bytes, 0, ByteOrder::Little));
    assert_eq!(read, Ok(Double::from_bits((-2.0f64).to_bits())));
    let unsigned = IntegerType::new(IntegerSize::_16, IntegerSign::Unsigned);
    assert_eq!(
        unsigned.dispatch(ReadFromPtr::new(&bytes, 0, ByteOrder::Little)),
        Ok(Double::from_bits(65534.0f64.to_bits()))
    );
    assert_eq!(
        ty.dispatch(ReadFromPtr::new(&bytes, 1, ByteOrder::Little)),
        Err(Error::OutOfBounds { offset: 1, width: 2 })
    );
    let float = FloatType::new(FloatSize::_32);
    assert_eq!(
        float.dispatch(WriteToPtr::new(Double::from_bits(1.0f64.to_bits()), ByteOrder::Little)),
        1.0f32.to_le_bytes().to_vec()
    );
}

#[test]
fn field_address_needs_a_live_object_that_is_not_null() {
    let mut handles = HandleMap::new();
    let live = handles.insert(NativeValue::Boxed(Boxed::from_glib_full(None, 0x1000))).unwrap();
    let null = handles.insert(NativeValue::Boxed(Boxed::from_glib_full(None, 0))).unwrap();
    assert_eq!(field_ptr(&handles, live, 16, Operation::Read), Ok(0x1010));
    assert_eq!(
        field_ptr(&handles, null, 16, Operation::Read),
        Err(Error::NullPointer { operation: Operation::Read })
    );
    assert_eq!(
        field_ptr(&handles, null, 16, Operation::Write),
        Err(Error::NullPointer { operation: Operation::Write })
    );
    assert_eq!(
        field_ptr(&handles, live, usize::MAX, Operation::Read),
        Err(Error::OutOfBounds { offset: usize::MAX, width: 0 })
    );
    handles.remove(live);
    assert_eq!(
        field_ptr(&handles, live, 16, Operation::Read),
        Err(Error::GarbageCollected { subject: Subject::Object, index: None })
    );
    assert_eq!(
        Error::GarbageCollected { subject: Subject::Object, index: None }.message(),
        "Object has been garbage collected"
    );
    assert_eq!(
        Error::NullPointer { operation: Operation::Read }.message(),
        "Cannot read field from null pointer"
    );
    assert_eq!(
        Error::NullPointer { operation: Operation::Write }.message(),
        "Cannot write field to null pointer"
    );
    assert_eq!(
        Error::UnsupportedType { operation: Operation::Write }.message(),
        "Unsupported field type for write"
    );
}

#[test]
fn fields_follow_the_byte_order() {
    let int_type = integer(IntegerSize::_32, IntegerSign::Signed);
    let mut little = vec![0u8; 6];
    let mut big = vec![0u8; 6];
    assert_eq!(native::module::field::write(&mut little, &int_type, 1, &num(-123456.0), ByteOrder::Little), Ok(()));
    assert_eq!(native::module::field::write(&mut big, &int_type, 1, &num(-123456.0), ByteOrder::Big), Ok(()));
    assert_eq!(&little[1..5], &(-123456i32).to_le_bytes());
    assert_eq!(&big[1..5], &(-123456i32).to_be_bytes());
    assert_eq!(
        native::module::field::read(&little, &int_type, 1, ByteOrder::Little),
        Ok(Converted::Value(num(-123456.0)))
    );
    assert_eq!(
        native::module::field::read(&big, &int_type, 1, ByteOrder::Big),
        Ok(Converted::Value(num(-123456.0)))
    );
    assert_eq!(
        native::module::field::read(&big, &int_type, 1, ByteOrder::Little),
        Ok(Converted::Value(num(i32::from_le_bytes((-123456i32).to_be_bytes()) as f64)))
    );

    let double = Type::Float(FloatType { size: FloatSize::_64 });
    let mut memory = vec![0u8; 8];
    assert_eq!(native::module::field::write(&mut memory, &double, 0, &num(0.1), ByteOrder::Big), Ok(()));
    assert_eq!(memory, 0.1f64.to_be_bytes().to_vec());
    assert_eq!(
        native::module::field::read(&memory, &double, 0, ByteOrder::Big),
        Ok(Converted::Value(num(0.1)))
    );

    let pointer = 0x1234_5678usize;
    let memory = pointer.to_be_bytes().to_vec();
    assert_eq!(
        native::module::field::read(&memory, &Type::String(StringType::new(true)), 0, ByteOrder::Big),
        Ok(Converted::Text { ptr: pointer, owned: false })
    );
}

#[test]
fn field_widths_follow_the_descriptor() {
    let width = native::module::field::field_width;
    assert_eq!(width(&integer(IntegerSize::_8, IntegerSign::Signed)), 1);
    assert_eq!(width(&integer(IntegerSize::_16, IntegerSign::Unsigned)), 2);
    assert_eq!(width(&Type::Float(FloatType { size: FloatSize::_32 })), 4);
    assert_eq!(width(&integer(IntegerSize::_64, IntegerSign::Signed)), 8);
    assert_eq!(width(&Type::Boolean), 1);
    assert_eq!(width(&Type::String(StringType::new(true))), std::mem::size_of::<usize>());
}
