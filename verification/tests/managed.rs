use native::error::{Error, Subject};
use native::gvariant::GVariant;
use native::managed::{
    Boxed, BoxedSource, Fundamental, GObject, HandleMap, NativeHandle, NativeOp, NativeValue,
};
use native::module::object::get_object_id;
use native::number::Double;
use native::types::{BoxedType, GType, GTypeLookup};

const RGBA: GType = GType { id: 0x52474241 };

fn create_test_gobject(ptr: usize) -> GObject {
    GObject::from_glib_none(ptr).0
}

#[test]
fn handle_from_registers_in_map() {
    let mut handles = HandleMap::new();
    let object = NativeValue::GObject(create_test_gobject(0x1000));
    let handle: NativeHandle = handles.insert(object).unwrap();

    assert!(handle.inner() > 0);
    assert!(handles.contains_key(handle));
}

#[test]
fn handle_get_ptr_returns_correct_pointer() {
    let mut handles = HandleMap::new();
    let expected_ptr = 0x1000;
    let object = NativeValue::GObject(create_test_gobject(expected_ptr));
    let handle = handles.insert(object).unwrap();

    let ptr = handle.get_ptr(&handles);
    assert_eq!(ptr, Some(expected_ptr));
}

#[test]
fn handle_get_ptr_returns_none_after_removal() {
    let mut handles = HandleMap::new();
    let object = NativeValue::GObject(create_test_gobject(0x1000));
    let handle = handles.insert(object).unwrap();

    handles.remove(handle);

    assert_eq!(handle.get_ptr(&handles), None);
}

#[test]
fn handle_get_ptr_as_usize_returns_usize() {
    let mut handles = HandleMap::new();
    let expected_ptr: usize = 0x1000;
    let object = NativeValue::GObject(create_test_gobject(expected_ptr));
    let handle = handles.insert(object).unwrap();

    let ptr = handle.as_ptr(&handles);
    assert_eq!(ptr, Some(expected_ptr));
}

#[test]
fn handle_increments_sequentially() {
    let mut handles = HandleMap::new();
    let handle1 = handles.insert(NativeValue::GObject(create_test_gobject(0x1000))).unwrap();
    let handle2 = handles.insert(NativeValue::GObject(create_test_gobject(0x2000))).unwrap();

    assert!(handle2.inner() > handle1.inner());
    assert_eq!(handle1.inner(), 1);
    assert_eq!(handle2.inner(), 2);
}

#[test]
fn handles_are_never_given_out_again() {
    let mut handles = HandleMap::new();
    let first = handles.insert(NativeValue::GObject(create_test_gobject(0x1000))).unwrap();
    handles.remove(first);
    let second = handles.insert(NativeValue::GObject(create_test_gobject(0x2000))).unwrap();
    assert_ne!(first, second);
    assert_eq!(handles.get_ptr(first), None);
    assert_eq!(handles.get_ptr(second), Some(0x2000));
}

#[test]
fn boxed_handle_stores_and_retrieves() {
    let mut handles = HandleMap::new();
    let ptr = 0x3000;
    let boxed = Boxed::from_glib_full(Some(RGBA), ptr);
    let object = NativeValue::Boxed(boxed);
    let handle = handles.insert(object).unwrap();

    let retrieved_ptr = handle.get_ptr(&handles);
    assert_eq!(retrieved_ptr, Some(ptr));
}

#[test]
fn object_gobject_clone_shares_reference() {
    let object = create_test_gobject(0x1000);
    let (cloned, op) = object.share();

    assert_eq!(object.ptr, cloned.ptr);
    assert_eq!(op, NativeOp::ObjectRef { ptr: 0x1000 });
    assert_eq!(cloned.release(), NativeOp::ObjectUnref { ptr: 0x1000 });
}

#[test]
fn object_boxed_clone_creates_copy() {
    let ptr = 0x3000;
    let boxed = Boxed::from_glib_full(Some(RGBA), ptr);
    let source = boxed.duplicate();

    assert_eq!(
        source,
        Ok(BoxedSource::Copy { op: NativeOp::BoxedCopy { gtype: RGBA, ptr }, gtype: Some(RGBA), size: None })
    );
    let cloned = source.unwrap().finish(0x4000);

    assert_ne!(boxed.as_ptr(), cloned.as_ptr());
    assert_eq!(cloned.as_ptr(), 0x4000);
    assert!(cloned.is_owned());
    assert_eq!(cloned.gtype(), Some(RGBA));
    assert_eq!(boxed.as_ptr(), ptr);
    assert!(boxed.is_owned());
}

#[test]
fn multiple_handles_independent() {
    let mut handles = HandleMap::new();
    let handle1 = handles.insert(NativeValue::GObject(create_test_gobject(0x1000))).unwrap();
    let handle2 = handles.insert(NativeValue::GObject(create_test_gobject(0x2000))).unwrap();

    handles.remove(handle1);

    assert_eq!(handle1.get_ptr(&handles), None);
    assert!(handle2.get_ptr(&handles).is_some());
}

#[test]
fn object_id_is_the_address_as_a_number() {
    let mut handles = HandleMap::new();
    let handle = handles.insert(NativeValue::GObject(create_test_gobject(0x7f12_3456_7890))).unwrap();
    assert_eq!(
        get_object_id(&handles, handle),
        Ok(Double::from_bits((0x7f12_3456_7890u64 as f64).to_bits()))
    );
    handles.remove(handle);
    assert_eq!(
        get_object_id(&handles, handle),
        Err(Error::GarbageCollected { subject: Subject::Object, index: None })
    );
}

#[test]
fn boxed_from_full_owns_and_frees() {
    let boxed = Boxed::from_glib_full(Some(RGBA), 0x3000);
    assert!(boxed.is_owned());
    assert_eq!(boxed.as_ptr(), 0x3000);
    assert_eq!(boxed.gtype(), Some(RGBA));
    assert_eq!(boxed.release(), Some(NativeOp::BoxedFree { gtype: RGBA, ptr: 0x3000 }));

    let raw = Boxed::from_glib_full(None, 0x3000);
    assert_eq!(raw.release(), Some(NativeOp::RawFree { ptr: 0x3000 }));

    let null = Boxed::from_glib_full(Some(RGBA), 0);
    assert_eq!(null.release(), None);
}

#[test]
fn boxed_from_none_copies_by_type_or_size_or_fails() {
    assert_eq!(
        Boxed::from_glib_none(Some(RGBA), 0x3000),
        Ok(BoxedSource::Copy {
            op: NativeOp::BoxedCopy { gtype: RGBA, ptr: 0x3000 },
            gtype: Some(RGBA),
            size: None
        })
    );
    assert_eq!(
        Boxed::from_glib_none_with_size(None, 0x3000, Some(16), None),
        Ok(BoxedSource::Copy {
            op: NativeOp::RawCopy { ptr: 0x3000, size: 16 },
            gtype: None,
            size: Some(16)
        })
    );
    assert_eq!(
        Boxed::from_glib_none_with_size(Some(RGBA), 0x3000, Some(16), None),
        Ok(BoxedSource::Copy {
            op: NativeOp::BoxedCopy { gtype: RGBA, ptr: 0x3000 },
            gtype: Some(RGBA),
            size: None
        })
    );
    let error = Boxed::from_glib_none(None, 0x3000).unwrap_err();
    assert_eq!(error, Error::UncopyableBoxed { ptr: 0x3000, name: None });
    assert!(error.message().contains("no size info or gtype"));
    assert_eq!(
        error.message(),
        "Cannot safely copy boxed type 'unknown': no size info or gtype. \
         Pointer 0x3000 may become dangling if the source is freed"
    );
    let named = Boxed::from_glib_none_with_size(None, 0x3000, None, Some("GdkRGBA")).unwrap_err();
    assert_eq!(named, Error::UncopyableBoxed { ptr: 0x3000, name: Some("GdkRGBA") });
    assert_eq!(
        named.message(),
        "Cannot safely copy boxed type 'GdkRGBA': no size info or gtype. \
         Pointer 0x3000 may become dangling if the source is freed"
    );

    let copied = Boxed::from_glib_none(Some(RGBA), 0x3000).unwrap().finish(0x8000);
    assert_eq!(copied.as_ptr(), 0x8000);
    assert!(copied.is_owned());
    assert_eq!(copied.release(), Some(NativeOp::BoxedFree { gtype: RGBA, ptr: 0x8000 }));
}

#[test]
fn boxed_from_none_of_null_owns_nothing() {
    let source = Boxed::from_glib_none(None, 0).unwrap();
    let boxed = source.finish(0x9999);
    assert_eq!(boxed.as_ptr(), 0);
    assert!(!boxed.is_owned());
    assert_eq!(boxed.release(), None);
}

#[test]
fn clone_of_unowned_boxed_is_unowned() {
    let unowned = Boxed::from_glib_none(Some(RGBA), 0).unwrap().finish(0);
    match unowned.duplicate() {
        Ok(BoxedSource::Ready(clone)) => {
            assert!(!clone.is_owned());
            assert_eq!(clone.as_ptr(), 0);
            assert_eq!(clone.release(), None);
        }
        other => panic!("expected a ready wrapper, got {other:?}"),
    }
}

#[test]
fn clone_of_owned_boxed_is_never_an_alias() {
    let untyped = Boxed::from_glib_full(None, 0x3000);
    assert_eq!(untyped.duplicate(), Err(Error::UncopyableBoxed { ptr: 0x3000, name: None }));

    let sized = Boxed::from_glib_full_with_size(None, 0x3000, Some(24));
    assert_eq!(sized.size(), Some(24));
    assert_eq!(
        sized.duplicate(),
        Ok(BoxedSource::Copy {
            op: NativeOp::RawCopy { ptr: 0x3000, size: 24 },
            gtype: None,
            size: Some(24)
        })
    );
    let clone = sized.duplicate().unwrap().finish(0x5000);
    assert_eq!(clone.as_ptr(), 0x5000);
    assert!(clone.is_owned());
    assert_eq!(clone.size(), Some(24));
    assert_eq!(clone.release(), Some(NativeOp::RawFree { ptr: 0x5000 }));

    let copied = Boxed::from_glib_none_with_size(None, 0x3000, Some(8), None).unwrap().finish(0x6000);
    assert_eq!(
        copied.duplicate(),
        Ok(BoxedSource::Copy {
            op: NativeOp::RawCopy { ptr: 0x6000, size: 8 },
            gtype: None,
            size: Some(8)
        })
    );
}

#[test]
fn fundamental_tracks_its_reference() {
    let full = Fundamental::from_glib_full(0x100, Some(0xa), Some(0xb));
    assert!(full.is_owned());
    assert_eq!(full.as_ptr(), 0x100);

    let (none, op) = Fundamental::from_glib_none(0x100, Some(0xa), Some(0xb));
    assert!(none.is_owned());
    assert_eq!(op, Some(NativeOp::FundamentalRef { func: 0xa, ptr: 0x100 }));

    let (clone, op) = none.duplicate();
    assert_eq!(clone.as_ptr(), none.as_ptr());
    assert!(clone.is_owned());
    assert_eq!(op, Some(NativeOp::FundamentalRef { func: 0xa, ptr: 0x100 }));
    assert_eq!(clone.release(), Some(NativeOp::FundamentalUnref { func: 0xb, ptr: 0x100 }));

    let (null, op) = Fundamental::from_glib_none(0, Some(0xa), Some(0xb));
    assert!(!null.is_owned());
    assert_eq!(op, None);
    assert_eq!(null.release(), None);

    let (bare, op) = Fundamental::from_glib_none(0x100, None, None);
    assert!(bare.is_owned());
    assert_eq!(op, None);
    assert_eq!(bare.release(), None);
}

#[test]
fn from_glib_full_sets_owned_flag() {
    let variant = GVariant::from_glib_full(0x100);

    assert!(variant.is_owned());
    assert!(variant.as_ptr() != 0);
}

#[test]
fn from_glib_full_null_ptr_safe() {
    let variant = GVariant::from_glib_full(0);

    assert!(variant.is_owned());
    assert!(variant.as_ptr() == 0);
    assert_eq!(variant.release(), None);
}

#[test]
fn from_glib_none_refs_and_sinks() {
    let (variant, op) = GVariant::from_glib_none(0x100);

    assert!(variant.is_owned());
    assert!(variant.as_ptr() != 0);
    assert_eq!(op, Some(NativeOp::VariantRefSink { ptr: 0x100 }));
}

#[test]
fn from_glib_none_null_ptr_not_owned() {
    let (variant, op) = GVariant::from_glib_none(0);

    assert!(!variant.is_owned());
    assert!(variant.as_ptr() == 0);
    assert_eq!(op, None);
}

#[test]
fn as_ptr_returns_correct_pointer() {
    let variant = GVariant::from_glib_full(0x100);

    assert_eq!(variant.as_ptr(), 0x100);
}

#[test]
fn as_ref_returns_ptr_reference() {
    let variant = GVariant::from_glib_full(0x100);
    let ptr_ref: &usize = variant.as_ref();

    assert_eq!(*ptr_ref, 0x100);
}

#[test]
fn clone_increments_refcount() {
    let variant = GVariant::from_glib_full(0x100);
    let (cloned, op) = variant.duplicate();

    assert!(cloned.is_owned());
    assert_eq!(cloned.as_ptr(), variant.as_ptr());
    assert_eq!(op, Some(NativeOp::VariantRef { ptr: 0x100 }));
}

#[test]
fn clone_null_does_not_increment_refcount() {
    let (variant, _) = GVariant::from_glib_none(0);
    let (cloned, op) = variant.duplicate();

    assert!(!cloned.is_owned());
    assert!(cloned.as_ptr() == 0);
    assert_eq!(op, None);
}

#[test]
fn drop_unrefs_owned_variant() {
    let variant = GVariant::from_glib_full(0x100);
    assert_eq!(variant.release(), Some(NativeOp::VariantUnref { ptr: 0x100 }));
}

#[test]
fn drop_does_not_unref_borrowed_variant() {
    let (variant, _) = GVariant::from_glib_none(0);
    assert_eq!(variant.release(), None);
}

#[test]
fn boxed_type_get_gtype_known_type() {
    let boxed_type = BoxedType::new(true, "GdkRGBA".to_string(), None, None);
    let gtype = boxed_type.get_gtype(Some(RGBA));

    assert_eq!(gtype, GTypeLookup::Registered(RGBA));
}

#[test]
fn boxed_type_get_gtype_unknown_type_no_lib() {
    let boxed_type = BoxedType::new(true, "NonExistentType".to_string(), None, None);
    let gtype = boxed_type.get_gtype(None);

    assert_eq!(gtype, GTypeLookup::Unavailable);
}

#[test]
fn boxed_type_get_gtype_loads_by_derived_or_given_name() {
    let derived = BoxedType::new(true, "GdkRGBA".to_string(), Some("libgtk-4.so.1".to_string()), None);
    assert_eq!(
        derived.get_gtype(None),
        GTypeLookup::Load {
            library: "libgtk-4.so.1".to_string(),
            symbol: "gdk_r_g_b_a_get_type".to_string()
        }
    );
    let given = BoxedType::new(
        true,
        "GdkRGBA".to_string(),
        Some("libgtk-4.so.1".to_string()),
        Some("gdk_rgba_get_type".to_string()),
    );
    assert_eq!(
        given.get_gtype(None),
        GTypeLookup::Load {
            library: "libgtk-4.so.1".to_string(),
            symbol: "gdk_rgba_get_type".to_string()
        }
    );
    assert_eq!(given.get_gtype(Some(RGBA)), GTypeLookup::Registered(RGBA));
}
