use native::types::{
    type_name_to_get_type_fn, ArrayType, BoxedType, FloatSize, FloatType, GObjectType,
    GVariantType, IntegerSign, IntegerSize, IntegerType, ListType, NativeTag, RefType,
    StringType, Type,
};

#[test]
fn list_type_default_is_array() {
    let list_type: ListType = Default::default();
    assert_eq!(list_type, ListType::Array);
}

#[test]
fn list_type_equality() {
    assert_eq!(ListType::Array, ListType::Array);
    assert_eq!(ListType::GList, ListType::GList);
    assert_eq!(ListType::GSList, ListType::GSList);
    assert_ne!(ListType::Array, ListType::GList);
    assert_ne!(ListType::GList, ListType::GSList);
}

#[test]
fn array_type_new_creates_correct_type() {
    let array_type =
        ArrayType::new(Type::Integer(IntegerType::new(IntegerSize::_32, IntegerSign::Signed)));

    if let Type::Integer(inner) = &*array_type.item_type {
        assert_eq!(inner.size, IntegerSize::_32);
        assert_eq!(inner.sign, IntegerSign::Signed);
    } else {
        panic!("Expected Integer type");
    }
    assert_eq!(array_type.list_type, ListType::Array);
    assert!(!array_type.is_borrowed);
}

#[test]
fn array_type_to_ffi_type_is_pointer() {
    let int_type = Type::Integer(IntegerType::new(IntegerSize::_32, IntegerSign::Signed));
    let array_type = ArrayType::new(int_type);
    assert_eq!(Type::Array(array_type).to_native_type_tag(), NativeTag::Pointer);
}

#[test]
fn array_type_with_glist() {
    let int_type = Type::Integer(IntegerType::new(IntegerSize::_32, IntegerSign::Signed));
    let array_type = ArrayType {
        item_type: Box::new(int_type),
        list_type: ListType::GList,
        is_borrowed: true,
    };

    assert_eq!(array_type.list_type, ListType::GList);
    assert!(array_type.is_borrowed);
}

#[test]
fn array_type_with_gslist() {
    let int_type = Type::Integer(IntegerType::new(IntegerSize::_32, IntegerSign::Signed));
    let array_type = ArrayType {
        item_type: Box::new(int_type),
        list_type: ListType::GSList,
        is_borrowed: false,
    };

    assert_eq!(array_type.list_type, ListType::GSList);
    assert!(!array_type.is_borrowed);
}

#[test]
fn boxed_type_new_creates_correct_type() {
    let boxed_type = BoxedType::new(
        true,
        "GdkRGBA".to_string(),
        Some("libgtk-4.so.1".to_string()),
        None,
    );

    assert!(boxed_type.is_borrowed);
    assert_eq!(boxed_type.type_, "GdkRGBA");
    assert_eq!(boxed_type.lib, Some("libgtk-4.so.1".to_string()));
    assert!(boxed_type.get_type_fn.is_none());
}

#[test]
fn boxed_type_equality() {
    let type1 = BoxedType::new(true, "GdkRGBA".to_string(), None, None);
    let type2 = BoxedType::new(true, "GdkRGBA".to_string(), None, None);
    let type3 = BoxedType::new(false, "GdkRGBA".to_string(), None, None);

    assert_eq!(type1, type2);
    assert_ne!(type1, type3);
}

#[test]
fn boxed_type_to_ffi_type_is_pointer() {
    let boxed_type = BoxedType::new(true, "GdkRGBA".to_string(), None, None);
    assert_eq!(Type::Boxed(boxed_type).to_native_type_tag(), NativeTag::Pointer);
}

#[test]
fn type_name_to_get_type_fn_simple() {
    assert_eq!(type_name_to_get_type_fn("GdkRGBA"), "gdk_r_g_b_a_get_type");
}

#[test]
fn type_name_to_get_type_fn_multiple_capitals() {
    assert_eq!(
        type_name_to_get_type_fn("GtkCssProvider"),
        "gtk_css_provider_get_type"
    );
}

#[test]
fn type_name_to_get_type_fn_single_word() {
    assert_eq!(type_name_to_get_type_fn("Widget"), "widget_get_type");
}

#[test]
fn type_name_to_get_type_fn_all_caps() {
    assert_eq!(type_name_to_get_type_fn("ABC"), "a_b_c_get_type");
}

#[test]
fn type_name_to_get_type_fn_edge_cases() {
    assert_eq!(type_name_to_get_type_fn(""), "_get_type");
    assert_eq!(type_name_to_get_type_fn("widget"), "widget_get_type");
    assert_eq!(type_name_to_get_type_fn("\u{c9}cole"), "\u{c9}cole_get_type");
    assert_eq!(type_name_to_get_type_fn("a\u{c9}"), "a_\u{c9}_get_type");
    assert_eq!(type_name_to_get_type_fn("Gtk4_Box"), "gtk4__box_get_type");
}

#[test]
fn boxed_type_clone() {
    let original = BoxedType::new(
        true,
        "GdkRGBA".to_string(),
        Some("libgtk-4.so.1".to_string()),
        Some("gdk_rgba_get_type".to_string()),
    );
    let cloned = original.clone();

    assert_eq!(original, cloned);
}

#[test]
fn float_type_new_creates_correct_type() {
    let float_type = FloatType::new(FloatSize::_32);
    assert_eq!(float_type.size, FloatSize::_32);

    let float_type = FloatType::new(FloatSize::_64);
    assert_eq!(float_type.size, FloatSize::_64);
}

#[test]
fn float_size_equality() {
    assert_eq!(FloatSize::_32, FloatSize::_32);
    assert_eq!(FloatSize::_64, FloatSize::_64);
    assert_ne!(FloatSize::_32, FloatSize::_64);
}

#[test]
fn float_type_to_ffi_type_f32() {
    let float_type = FloatType::new(FloatSize::_32);
    assert_eq!(float_type.native_tag(), NativeTag::F32);
    assert_eq!(Type::Float(float_type).to_native_type_tag(), NativeTag::F32);
}

#[test]
fn float_type_to_ffi_type_f64() {
    let float_type = FloatType::new(FloatSize::_64);
    assert_eq!(float_type.native_tag(), NativeTag::F64);
    assert_eq!(Type::Float(float_type).to_native_type_tag(), NativeTag::F64);
}

#[test]
fn float_type_clone() {
    let original = FloatType::new(FloatSize::_64);
    let cloned = original;
    assert_eq!(original, cloned);
}

#[test]
fn gobject_type_new_creates_correct_type() {
    let gobject_type = GObjectType::new(true);
    assert!(gobject_type.is_borrowed);

    let gobject_type = GObjectType::new(false);
    assert!(!gobject_type.is_borrowed);
}

#[test]
fn gobject_type_equality() {
    let borrowed = GObjectType::new(true);
    let not_borrowed = GObjectType::new(false);
    let borrowed2 = GObjectType::new(true);

    assert_eq!(borrowed, borrowed2);
    assert_ne!(borrowed, not_borrowed);
}

#[test]
fn gobject_type_to_ffi_type_is_pointer() {
    let borrowed = GObjectType::new(true);
    let not_borrowed = GObjectType::new(false);

    assert_eq!(Type::GObject(borrowed).to_native_type_tag(), NativeTag::Pointer);
    assert_eq!(Type::GObject(not_borrowed).to_native_type_tag(), NativeTag::Pointer);
}

#[test]
fn gobject_type_clone() {
    let original = GObjectType::new(true);
    let cloned = original;
    assert_eq!(original, cloned);
}

#[test]
fn gvariant_type_new_creates_correct_type() {
    let gvariant_type = GVariantType::new(true);
    assert!(gvariant_type.is_borrowed);

    let gvariant_type = GVariantType::new(false);
    assert!(!gvariant_type.is_borrowed);
}

#[test]
fn gvariant_type_equality() {
    let borrowed = GVariantType::new(true);
    let not_borrowed = GVariantType::new(false);
    let borrowed2 = GVariantType::new(true);

    assert_eq!(borrowed, borrowed2);
    assert_ne!(borrowed, not_borrowed);
}

#[test]
fn gvariant_type_clone() {
    let original = GVariantType::new(true);
    let cloned = original.clone();
    assert_eq!(original, cloned);
}

#[test]
fn integer_type_new_creates_correct_type() {
    let int_type = IntegerType::new(IntegerSize::_32, IntegerSign::Signed);
    assert_eq!(int_type.size, IntegerSize::_32);
    assert_eq!(int_type.sign, IntegerSign::Signed);
}

#[test]
fn integer_size_equality() {
    assert_eq!(IntegerSize::_8, IntegerSize::_8);
    assert_eq!(IntegerSize::_16, IntegerSize::_16);
    assert_eq!(IntegerSize::_32, IntegerSize::_32);
    assert_eq!(IntegerSize::_64, IntegerSize::_64);
    assert_ne!(IntegerSize::_8, IntegerSize::_16);
}

#[test]
fn integer_sign_equality() {
    assert_eq!(IntegerSign::Signed, IntegerSign::Signed);
    assert_eq!(IntegerSign::Unsigned, IntegerSign::Unsigned);
    assert_ne!(IntegerSign::Signed, IntegerSign::Unsigned);
}

#[test]
fn integer_type_to_ffi_type_u8() {
    let int_type = IntegerType::new(IntegerSize::_8, IntegerSign::Unsigned);
    assert_eq!(int_type.native_tag(), NativeTag::U8);
}

#[test]
fn integer_type_to_ffi_type_i8() {
    let int_type = IntegerType::new(IntegerSize::_8, IntegerSign::Signed);
    assert_eq!(int_type.native_tag(), NativeTag::I8);
}

#[test]
fn integer_type_to_ffi_type_u16() {
    let int_type = IntegerType::new(IntegerSize::_16, IntegerSign::Unsigned);
    assert_eq!(int_type.native_tag(), NativeTag::U16);
}

#[test]
fn integer_type_to_ffi_type_i16() {
    let int_type = IntegerType::new(IntegerSize::_16, IntegerSign::Signed);
    assert_eq!(int_type.native_tag(), NativeTag::I16);
}

#[test]
fn integer_type_to_ffi_type_u32() {
    let int_type = IntegerType::new(IntegerSize::_32, IntegerSign::Unsigned);
    assert_eq!(int_type.native_tag(), NativeTag::U32);
}

#[test]
fn integer_type_to_ffi_type_i32() {
    let int_type = IntegerType::new(IntegerSize::_32, IntegerSign::Signed);
    assert_eq!(int_type.native_tag(), NativeTag::I32);
}

#[test]
fn integer_type_to_ffi_type_u64() {
    let int_type = IntegerType::new(IntegerSize::_64, IntegerSign::Unsigned);
    assert_eq!(int_type.native_tag(), NativeTag::U64);
}

#[test]
fn integer_type_to_ffi_type_i64() {
    let int_type = IntegerType::new(IntegerSize::_64, IntegerSign::Signed);
    assert_eq!(int_type.native_tag(), NativeTag::I64);
}

#[test]
fn integer_type_clone() {
    let original = IntegerType::new(IntegerSize::_32, IntegerSign::Signed);
    let cloned = original;
    assert_eq!(original, cloned);
}

#[test]
fn ref_type_new_creates_correct_type() {
    let ref_type =
        RefType::new(Type::Integer(IntegerType::new(IntegerSize::_32, IntegerSign::Signed)));

    if let Type::Integer(inner) = &*ref_type.inner_type {
        assert_eq!(inner.size, IntegerSize::_32);
        assert_eq!(inner.sign, IntegerSign::Signed);
    } else {
        panic!("Expected Integer type");
    }
}

#[test]
fn ref_type_to_ffi_type_is_pointer() {
    let int_type = Type::Integer(IntegerType::new(IntegerSize::_32, IntegerSign::Signed));
    let ref_type = RefType::new(int_type);
    assert_eq!(Type::Ref(ref_type).to_native_type_tag(), NativeTag::Pointer);
}

#[test]
fn ref_type_with_nested_type() {
    let int_type = Type::Integer(IntegerType::new(IntegerSize::_64, IntegerSign::Unsigned));
    let ref_type = RefType::new(int_type);

    if let Type::Integer(inner) = &*ref_type.inner_type {
        assert_eq!(inner.size, IntegerSize::_64);
        assert_eq!(inner.sign, IntegerSign::Unsigned);
    } else {
        panic!("Expected Integer type");
    }
}

#[test]
fn string_type_new_creates_correct_type() {
    let string_type = StringType::new(true);
    assert!(string_type.is_borrowed);
    assert!(string_type.length.is_none());

    let string_type = StringType::new(false);
    assert!(!string_type.is_borrowed);
    assert!(string_type.length.is_none());
}

#[test]
fn string_type_with_length() {
    let string_type = StringType::with_length(false, 256);
    assert!(!string_type.is_borrowed);
    assert_eq!(string_type.length, Some(256));
}

#[test]
fn string_type_equality() {
    let borrowed = StringType::new(true);
    let not_borrowed = StringType::new(false);
    let borrowed2 = StringType::new(true);

    assert_eq!(borrowed, borrowed2);
    assert_ne!(borrowed, not_borrowed);
}

#[test]
fn string_type_to_ffi_type_is_pointer() {
    let borrowed = StringType::new(true);
    let not_borrowed = StringType::new(false);

    assert_eq!(Type::String(borrowed).to_native_type_tag(), NativeTag::Pointer);
    assert_eq!(Type::String(not_borrowed).to_native_type_tag(), NativeTag::Pointer);
}

#[test]
fn string_type_clone() {
    let original = StringType::new(true);
    let cloned = original;
    assert_eq!(original, cloned);
}

#[test]
fn boolean_is_passed_as_one_byte() {
    assert_eq!(Type::Boolean.to_native_type_tag(), NativeTag::U8);
    assert_eq!(Type::Null.to_native_type_tag(), NativeTag::Pointer);
    assert_eq!(Type::Undefined.to_native_type_tag(), NativeTag::Pointer);
}

#[test]
fn descriptors_clone_to_equal_descriptors() {
    let mut callback = native::types::CallbackType::new(native::types::CallbackTrampoline::DrawFunc);
    callback.arg_types = Some(vec![
        Type::Boolean,
        Type::Array(ArrayType::new(Type::String(StringType::with_length(true, 4)))),
    ]);
    callback.return_type = Some(Box::new(Type::Ref(RefType::new(Type::Null))));
    let types = vec![
        Type::Integer(IntegerType::new(IntegerSize::_8, IntegerSign::Signed)),
        Type::Boxed(BoxedType::new(true, "GdkRGBA".to_string(), Some("lib".to_string()), None)),
        Type::Callback(callback),
        Type::Struct(native::types::StructType::new(false, "Rect".to_string(), Some(16))),
        Type::Fundamental(native::types::FundamentalType::new(
            true,
            "lib".to_string(),
            "ref".to_string(),
            "unref".to_string(),
        )),
    ];
    for ty in types {
        assert_eq!(ty.clone(), ty);
    }
}
