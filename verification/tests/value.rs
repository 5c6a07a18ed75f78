use native::cif::callback::{
    build_trampoline_callback, closure_invoke, closure_ownership, closure_reply,
    convert_glib_args, invoke_and_wait_for_js_result, wait_for_js_result, ClosureOwnership,
    Enqueue, Invocation, Polled, Wait,
};
use native::cif::{Storage, Value as CifValue};
use native::error::{Error, Kind, Operation, Subject};
use native::gtk_dispatch::GtkDispatcher;
use native::managed::{Boxed, BoxedSource, HandleMap, NativeOp, NativeValue};
use native::number::{Double, Single};
use native::queue::Queue;
use native::trampolines::{destroy_trampoline, source_func_invoked, source_func_trampoline};
use native::types::{
    ArrayType, BoxedType, CallbackTrampoline, CallbackType, FloatSize, FloatType,
    FundamentalType, GObjectType, GType, IntegerSign, IntegerSize, IntegerType, StringType,
    StructType, Type,
};
use native::value::{Acquire, Callback, Converted, GValue, Value};

fn num(x: f64) -> Value {
    Value::Number(Double::from_bits(x.to_bits()))
}

fn ready(x: f64) -> Result<Converted, Error<'static>> {
    Ok(Converted::Value(num(x)))
}

fn integer(size: IntegerSize, sign: IntegerSign) -> Type {
    Type::Integer(IntegerType::new(size, sign))
}

#[test]
fn value_kinds() {
    assert_eq!(num(1.0).kind(), Kind::Number);
    assert_eq!(Value::String("a".to_string()).kind(), Kind::String);
    assert_eq!(Value::Boolean(true).kind(), Kind::Boolean);
    assert_eq!(Value::Null.kind(), Kind::Null);
    assert_eq!(Value::Undefined.kind(), Kind::Undefined);
    assert_eq!(Value::Array(vec![]).kind(), Kind::Array);
    assert_eq!(Value::Callback(Callback::new(1, 2)).kind(), Kind::Callback);
}

#[test]
fn object_ptr_resolves_objects_and_nulls() {
    let mut handles = HandleMap::new();
    let handle = handles.insert(NativeValue::Boxed(Boxed::from_glib_full(None, 0x700))).unwrap();
    assert_eq!(Value::Object(handle).object_ptr(&handles, Subject::Boxed), Ok(0x700));
    assert_eq!(Value::Null.object_ptr(&handles, Subject::Boxed), Ok(0));
    assert_eq!(Value::Undefined.object_ptr(&handles, Subject::Boxed), Ok(0));
    let number = num(1.0);
    let error = number.object_ptr(&handles, Subject::Boxed).unwrap_err();
    assert_eq!(error.message(), "Expected an Object for boxed type, got Number()");
    handles.remove(handle);
    let object = Value::Object(handle);
    let error = object.object_ptr(&handles, Subject::Boxed).unwrap_err();
    assert_eq!(error.message(), "Boxed object has been garbage collected");
}

#[test]
fn integers_come_from_the_values_that_hold_them() {
    let i8_type = integer(IntegerSize::_8, IntegerSign::Signed);
    assert_eq!(Value::from_glib_value(&GValue::Char(-5), &i8_type), ready(-5.0));
    assert_eq!(
        Value::from_glib_value(&GValue::Int(-5), &i8_type),
        Err(Error::GValueType { subject: Subject::Integer })
    );
    let u8_type = integer(IntegerSize::_8, IntegerSign::Unsigned);
    assert_eq!(Value::from_glib_value(&GValue::UChar(250), &u8_type), ready(250.0));
    let i16_type = integer(IntegerSize::_16, IntegerSign::Signed);
    assert_eq!(Value::from_glib_value(&GValue::Int(-1234), &i16_type), ready(-1234.0));
    assert_eq!(Value::from_glib_value(&GValue::Int(70000), &i16_type), ready((70000i32 as i16) as f64));
    assert_eq!(Value::from_glib_value(&GValue::Int(70000), &i16_type), ready(4464.0));
    let u16_type = integer(IntegerSize::_16, IntegerSign::Unsigned);
    assert_eq!(Value::from_glib_value(&GValue::UInt(65537), &u16_type), ready(1.0));
    let i32_type = integer(IntegerSize::_32, IntegerSign::Signed);
    assert_eq!(Value::from_glib_value(&GValue::Int(-123456), &i32_type), ready(-123456.0));
    assert_eq!(Value::from_glib_value(&GValue::Enum(3), &i32_type), ready(3.0));
    assert_eq!(
        Value::from_glib_value(&GValue::Flags(3), &i32_type),
        Err(Error::GValueType { subject: Subject::Integer })
    );
    let u32_type = integer(IntegerSize::_32, IntegerSign::Unsigned);
    assert_eq!(Value::from_glib_value(&GValue::UInt(4000000000), &u32_type), ready(4000000000.0));
    assert_eq!(Value::from_glib_value(&GValue::Flags(6), &u32_type), ready(6.0));
    let i64_type = integer(IntegerSize::_64, IntegerSign::Signed);
    assert_eq!(Value::from_glib_value(&GValue::Int64(-9999999999), &i64_type), ready(-9999999999.0));
    assert_eq!(
        Value::from_glib_value(&GValue::Long(1), &i64_type),
        Err(Error::GValueType { subject: Subject::Integer })
    );
    let u64_type = integer(IntegerSize::_64, IntegerSign::Unsigned);
    assert_eq!(Value::from_glib_value(&GValue::UInt64(u64::MAX), &u64_type), ready(u64::MAX as f64));
}

#[test]
fn floats_strings_and_booleans_come_from_their_values() {
    let single = Type::Float(FloatType::new(FloatSize::_32));
    let double = Type::Float(FloatType::new(FloatSize::_64));
    assert_eq!(
        Value::from_glib_value(&GValue::Float(Single::from_bits(1.5f32.to_bits())), &single),
        ready(1.5)
    );
    assert_eq!(
        Value::from_glib_value(&GValue::Double(Double::from_bits(0.1f64.to_bits())), &double),
        ready(0.1)
    );
    let error = Value::from_glib_value(&GValue::Double(Double::from_bits(0)), &single).unwrap_err();
    assert_eq!(error, Error::GValueType { subject: Subject::Float });
    assert_eq!(error.message(), "Failed to get float from GValue");

    let string = Type::String(StringType::new(true));
    assert_eq!(
        Value::from_glib_value(&GValue::String(Some("hi".to_string())), &string),
        Ok(Converted::Value(Value::String("hi".to_string())))
    );
    assert_eq!(
        Value::from_glib_value(&GValue::String(None), &string),
        Err(Error::GValueType { subject: Subject::String })
    );
    assert_eq!(
        Value::from_glib_value(&GValue::Boolean(true), &Type::Boolean),
        Ok(Converted::Value(Value::Boolean(true)))
    );
    assert_eq!(
        Value::from_glib_value(&GValue::Int(1), &Type::Boolean),
        Err(Error::GValueType { subject: Subject::Boolean })
    );
}

#[test]
fn objects_come_with_what_acquires_them() {
    let object = Type::GObject(GObjectType::new(true));
    assert_eq!(
        Value::from_glib_value(&GValue::Object { ptr: 0x50, has_class: true }, &object),
        Ok(Converted::Object(Acquire::GObject { ptr: 0x50, owned: false }))
    );
    assert_eq!(
        Value::from_glib_value(&GValue::Object { ptr: 0, has_class: false }, &object),
        Ok(Converted::Value(Value::Null))
    );
    assert_eq!(
        Value::from_glib_value(&GValue::Object { ptr: 0x50, has_class: false }, &object),
        Err(Error::InvalidClass)
    );
    assert_eq!(Value::from_glib_value(&GValue::Int(5), &object), Ok(Converted::Value(Value::Null)));

    let boxed = Type::Boxed(BoxedType::new(false, "GdkRGBA".to_string(), None, None));
    let rgba = GType { id: 77 };
    assert_eq!(
        Value::from_glib_value(&GValue::Boxed { gtype: rgba, ptr: 0x60 }, &boxed),
        Ok(Converted::Object(Acquire::Boxed { ptr: 0x60, value_type: Some(rgba), owned: false }))
    );
    assert_eq!(
        Value::from_glib_value(&GValue::Boxed { gtype: rgba, ptr: 0 }, &boxed),
        Ok(Converted::Value(Value::Null))
    );

    let fundamental = |borrowed| {
        Type::Fundamental(FundamentalType::new(
            borrowed,
            "libglib-2.0.so.0".to_string(),
            "g_variant_ref".to_string(),
            "g_variant_unref".to_string(),
        ))
    };
    assert_eq!(
        Value::from_glib_value(&GValue::Variant(0x70), &fundamental(false)),
        Ok(Converted::Object(Acquire::Fundamental { ptr: 0x70, owned: true }))
    );
    assert_eq!(
        Value::from_glib_value(&GValue::Param(0x70), &fundamental(true)),
        Ok(Converted::Object(Acquire::Fundamental { ptr: 0x70, owned: false }))
    );
    assert_eq!(
        Value::from_glib_value(&GValue::Variant(0), &fundamental(true)),
        Ok(Converted::Value(Value::Null))
    );
    assert_eq!(
        Value::from_glib_value(&GValue::Int(1), &fundamental(true)),
        Err(Error::UnsupportedType { operation: Operation::FromGlib })
    );
}

#[test]
fn boxed_acquisition_prefers_the_resolved_type() {
    let value_type = GType { id: 1 };
    let resolved = GType { id: 2 };
    assert_eq!(
        Acquire::boxed_source(0x60, Some(value_type), false, Some(resolved)),
        Ok(BoxedSource::Copy {
            op: NativeOp::BoxedCopy { gtype: resolved, ptr: 0x60 },
            gtype: Some(resolved),
            size: None
        })
    );
    assert_eq!(
        Acquire::boxed_source(0x60, Some(value_type), false, None),
        Ok(BoxedSource::Copy {
            op: NativeOp::BoxedCopy { gtype: value_type, ptr: 0x60 },
            gtype: Some(value_type),
            size: None
        })
    );
    assert_eq!(
        Acquire::boxed_source(0x60, None, false, None),
        Err(Error::UncopyableBoxed { ptr: 0x60, name: None })
    );
    match Acquire::boxed_source(0x60, None, true, Some(resolved)) {
        Ok(BoxedSource::Ready(boxed)) => {
            assert_eq!(boxed.as_ptr(), 0x60);
            assert!(boxed.is_owned());
            assert_eq!(boxed.gtype(), Some(resolved));
        }
        other => panic!("expected a ready wrapper, got {other:?}"),
    }
}

#[test]
fn shapes_that_no_value_holds_are_refused() {
    let unsupported = Err(Error::UnsupportedType { operation: Operation::FromGlib });
    let array = Type::Array(ArrayType::new(Type::Boolean));
    assert_eq!(Value::from_glib_value(&GValue::Int(1), &array), unsupported);
    let structure = Type::Struct(StructType::new(true, "Rect".to_string(), Some(16)));
    assert_eq!(Value::from_glib_value(&GValue::Int(1), &structure), unsupported);
    let callback = Type::Callback(CallbackType::new(CallbackTrampoline::Closure));
    assert_eq!(Value::from_glib_value(&GValue::Int(1), &callback), unsupported);
    assert_eq!(Value::from_glib_value(&GValue::Int(1), &Type::Null), Ok(Converted::Value(Value::Null)));
    assert_eq!(
        Value::from_glib_value(&GValue::Int(1), &Type::Undefined),
        Ok(Converted::Value(Value::Null))
    );
}

#[test]
fn argument_lists_convert_pairwise_and_fail_at_the_first() {
    let args = vec![GValue::Int(1), GValue::Boolean(true), GValue::Int(3)];
    let types = Some(vec![integer(IntegerSize::_32, IntegerSign::Signed), Type::Boolean]);
    assert_eq!(
        Value::from_glib_values(&args, &types),
        Ok(vec![Converted::Value(num(1.0)), Converted::Value(Value::Boolean(true))])
    );
    let types = Some(vec![Type::Boolean, Type::String(StringType::new(true))]);
    assert_eq!(
        Value::from_glib_values(&args, &types),
        Err(Error::GValueType { subject: Subject::Boolean })
    );
    assert_eq!(Value::from_glib_values(&vec![], &None), Ok(vec![]));
    let error = Value::from_glib_values(&args, &None).unwrap_err();
    assert_eq!(error, Error::MissingArgTypes { count: 3 });
    assert_eq!(
        error.message(),
        "Callback received 3 argument(s) but no argTypes were provided"
    );
}

#[test]
fn undeclared_arguments_convert_by_their_own_kind() {
    let args = vec![
        GValue::Int(-1),
        GValue::Double(Double::from_bits(2.5f64.to_bits())),
        GValue::String(Some("s".to_string())),
        GValue::String(None),
        GValue::Boolean(false),
        GValue::Object { ptr: 0x50, has_class: true },
    ];
    assert_eq!(
        convert_glib_args(&args, &None),
        Ok(vec![
            Converted::Value(num(-1.0)),
            Converted::Value(num(2.5)),
            Converted::Value(Value::String("s".to_string())),
            Converted::Value(Value::Null),
            Converted::Value(Value::Boolean(false)),
            Converted::Object(Acquire::GObject { ptr: 0x50, owned: false }),
        ])
    );
    assert_eq!(
        convert_glib_args(&vec![GValue::Int(1), GValue::Other(GType { id: 4 })], &None),
        Err(Error::UnsupportedType { operation: Operation::FromGlib })
    );
}

#[test]
fn scripting_values_convert_to_object_system_values() {
    assert_eq!(num(1.5).to_glib_value(), Ok(GValue::Double(Double::from_bits(1.5f64.to_bits()))));
    assert_eq!(
        Value::String("x".to_string()).to_glib_value(),
        Ok(GValue::String(Some("x".to_string())))
    );
    assert_eq!(Value::Boolean(true).to_glib_value(), Ok(GValue::Boolean(true)));
    assert_eq!(Value::Null.to_glib_value(), Err(Error::NullToGlib));
    assert_eq!(Value::Undefined.to_glib_value(), Err(Error::NullToGlib));
    assert_eq!(Error::NullToGlib.message(), "Cannot convert Null/Undefined to glib::Value");
    assert_eq!(
        Value::Array(vec![]).to_glib_value(),
        Err(Error::UnsupportedType { operation: Operation::ToGlib })
    );
}

#[test]
fn undefined_result_becomes_the_default_of_the_return_type() {
    let int_type = integer(IntegerSize::_32, IntegerSign::Signed);
    assert_eq!(
        Value::Undefined.into_glib_value_with_default(Some(&Type::Boolean)),
        Some(GValue::Boolean(false))
    );
    assert_eq!(Value::Undefined.into_glib_value_with_default(Some(&int_type)), Some(GValue::Int(0)));
    assert_eq!(Value::Undefined.into_glib_value_with_default(Some(&Type::Undefined)), None);
    assert_eq!(Value::Undefined.into_glib_value_with_default(None), None);
    assert_eq!(Value::Null.into_glib_value_with_default(Some(&Type::Boolean)), None);
    assert_eq!(
        Value::Boolean(true).into_glib_value_with_default(Some(&Type::Boolean)),
        Some(GValue::Boolean(true))
    );
    assert_eq!(
        num(4.0).into_glib_value_with_default(None),
        Some(GValue::Double(Double::from_bits(4.0f64.to_bits())))
    );
}

fn closure_type(kind: CallbackTrampoline) -> CallbackType {
    CallbackType::new(kind)
}

#[test]
fn plain_closure_converts_calls_and_answers() {
    let mut ty = closure_type(CallbackTrampoline::Closure);
    ty.arg_types = Some(vec![integer(IntegerSize::_32, IntegerSign::Signed)]);
    ty.return_type = Some(Box::new(Type::Boolean));

    assert_eq!(
        closure_invoke(&ty, &vec![GValue::Int(7)]),
        Invocation::Call { args: vec![Converted::Value(num(7.0))], capture_result: true }
    );
    assert_eq!(
        closure_invoke(&ty, &vec![GValue::Boolean(true)]),
        Invocation::Reply(Some(GValue::Boolean(false)))
    );
    assert_eq!(closure_reply(&ty, Ok(Value::Boolean(true))), Some(GValue::Boolean(true)));
    assert_eq!(closure_reply(&ty, Ok(Value::Undefined)), Some(GValue::Boolean(false)));
    assert_eq!(closure_reply(&ty, Err(())), Some(GValue::Boolean(false)));

    let mut ty = closure_type(CallbackTrampoline::Closure);
    ty.return_type = Some(Box::new(integer(IntegerSize::_32, IntegerSign::Signed)));
    assert_eq!(closure_reply(&ty, Err(())), Some(GValue::Int(0)));

    let ty = closure_type(CallbackTrampoline::Closure);
    assert_eq!(closure_reply(&ty, Err(())), None);
    assert_eq!(closure_reply(&ty, Ok(Value::Null)), None);
    assert_eq!(
        closure_invoke(&ty, &vec![GValue::Other(GType { id: 1 })]),
        Invocation::Reply(None)
    );
}

#[test]
fn other_closures_answer_with_nothing() {
    let draw = closure_type(CallbackTrampoline::DrawFunc);
    assert_eq!(
        closure_invoke(&draw, &vec![GValue::Int(7)]),
        Invocation::Call { args: vec![Converted::Value(num(7.0))], capture_result: false }
    );
    assert_eq!(closure_invoke(&draw, &vec![GValue::Other(GType { id: 1 })]), Invocation::Reply(None));
    assert_eq!(closure_reply(&draw, Ok(Value::Boolean(true))), None);

    let destroy = closure_type(CallbackTrampoline::Destroy);
    assert_eq!(
        closure_invoke(&destroy, &vec![GValue::Int(7)]),
        Invocation::Call { args: vec![], capture_result: false }
    );
    assert_eq!(closure_reply(&destroy, Err(())), None);

    let mut ready = closure_type(CallbackTrampoline::AsyncReady);
    ready.source_type = Some(Box::new(Type::GObject(GObjectType::new(true))));
    ready.result_type = Some(Box::new(Type::Boolean));
    assert_eq!(
        closure_invoke(
            &ready,
            &vec![GValue::Object { ptr: 0x50, has_class: true }, GValue::Boolean(true), GValue::Int(1)]
        ),
        Invocation::Call {
            args: vec![
                Converted::Object(Acquire::GObject { ptr: 0x50, owned: false }),
                Converted::Value(Value::Boolean(true)),
            ],
            capture_result: false,
        }
    );
    assert_eq!(
        closure_invoke(&ready, &vec![GValue::Object { ptr: 0x50, has_class: false }]),
        Invocation::Call {
            args: vec![Converted::Value(Value::Null), Converted::Value(Value::Null)],
            capture_result: false,
        }
    );
    let bare = closure_type(CallbackTrampoline::AsyncReady);
    assert_eq!(
        closure_invoke(&bare, &vec![GValue::Int(1), GValue::Int(2)]),
        Invocation::Call {
            args: vec![Converted::Value(Value::Null), Converted::Value(Value::Null)],
            capture_result: false,
        }
    );
}

#[test]
fn waiting_scripting_thread_is_not_woken() {
    assert_eq!(invoke_and_wait_for_js_result(true), Enqueue::Queue);
    assert_eq!(invoke_and_wait_for_js_result(false), Enqueue::QueueWithWakeup);
}

#[test]
fn wait_ends_on_an_answer_or_a_lost_channel() {
    assert_eq!(wait_for_js_result(Polled::Empty), Wait::Yield);
    assert_eq!(wait_for_js_result(Polled::Ready(Ok(num(1.0)))), Wait::Finish(Ok(num(1.0))));
    assert_eq!(wait_for_js_result(Polled::Ready(Err(()))), Wait::Finish(Err(())));
    assert_eq!(wait_for_js_result(Polled::Disconnected), Wait::Finish(Err(())));
}

#[test]
fn reentrant_callback_completes_within_a_bounded_wait() {
    let mut dispatcher: GtkDispatcher<u32> = GtkDispatcher::new();
    let mut callbacks: Queue<(Callback, Vec<Converted>)> = Queue::new();
    let mut answers: Queue<Result<Value, ()>> = Queue::new();
    let mut woken = 0;

    dispatcher.enter_js_wait();
    assert_eq!(dispatcher.schedule(1), None);

    let mut ty = closure_type(CallbackTrampoline::Closure);
    ty.return_type = Some(Box::new(Type::Boolean));
    let args = match closure_invoke(&ty, &vec![]) {
        Invocation::Call { args, capture_result } => {
            assert!(capture_result);
            args
        }
        other => panic!("expected a call, got {other:?}"),
    };
    match invoke_and_wait_for_js_result(dispatcher.is_js_waiting()) {
        Enqueue::Queue => callbacks.push((Callback::new(1, 1), args)),
        Enqueue::QueueWithWakeup => {
            woken += 1;
            callbacks.push((Callback::new(1, 1), args));
        }
    }
    assert_eq!(woken, 0);

    let mut outcome = None;
    let mut rounds = 0;
    while outcome.is_none() && rounds < 10 {
        rounds += 1;
        while dispatcher.dispatch_pending().is_some() {}
        for (_, _) in native::module::poll::poll(&mut callbacks) {
            answers.push(Ok(Value::Boolean(true)));
        }
        let polled = match answers.pop() {
            Some(answer) => Polled::Ready(answer),
            None => Polled::Empty,
        };
        match wait_for_js_result(polled) {
            Wait::Finish(result) => outcome = Some(result),
            Wait::Yield => {}
        }
    }
    dispatcher.exit_js_wait();

    assert_eq!(outcome, Some(Ok(Value::Boolean(true))));
    assert!(rounds < 10);
    assert_eq!(closure_reply(&ty, outcome.unwrap()), Some(GValue::Boolean(true)));
    assert!(!dispatcher.is_js_waiting());
}

#[test]
fn poll_drains_the_queue_in_order() {
    let mut queue: Queue<u32> = Queue::new();
    queue.push(1);
    queue.push(2);
    queue.push(3);
    assert_eq!(native::module::poll::poll(&mut queue), vec![1, 2, 3]);
    assert!(queue.is_empty());
    assert_eq!(native::module::poll::poll(&mut queue), Vec::<u32>::new());
}

#[test]
fn stop_closes_the_queue_and_hands_over_what_waits() {
    let mut dispatcher: GtkDispatcher<u32> = GtkDispatcher::new();
    dispatcher.schedule(1);
    dispatcher.schedule(2);
    assert_eq!(native::module::stop::stop(&mut dispatcher), vec![1, 2]);
    assert_eq!(dispatcher.schedule(3), Some(3));
    assert_eq!(dispatcher.dispatch_pending(), None);
    assert_eq!(native::module::stop::stop(&mut dispatcher), Vec::<u32>::new());
}

#[test]
fn closures_are_kept_or_handed_over_by_kind() {
    assert_eq!(closure_ownership(CallbackTrampoline::Closure), ClosureOwnership::Retained);
    assert_eq!(closure_ownership(CallbackTrampoline::AsyncReady), ClosureOwnership::Transferred);
    assert_eq!(closure_ownership(CallbackTrampoline::Destroy), ClosureOwnership::Transferred);
    assert_eq!(closure_ownership(CallbackTrampoline::DrawFunc), ClosureOwnership::Transferred);
}

#[test]
fn built_callback_values_match_their_kind() {
    match build_trampoline_callback(CallbackTrampoline::Closure, 0x20, 0x10, 0x30) {
        CifValue::OwnedPtr(owned) => {
            assert_eq!(owned.ptr, 0x20);
            assert_eq!(owned.value, Storage::Unit);
        }
        other => panic!("expected an owned pointer, got {other:?}"),
    }
    match build_trampoline_callback(CallbackTrampoline::Destroy, 0x20, 0x10, 0x30) {
        CifValue::TrampolineCallback(t) => assert_eq!(t.ffi_arg_refs(), &vec![0x20, 0x10]),
        other => panic!("expected a trampoline, got {other:?}"),
    }
    match build_trampoline_callback(CallbackTrampoline::DrawFunc, 0x20, 0x10, 0x30) {
        CifValue::TrampolineCallback(t) => assert_eq!(t.ffi_arg_refs(), &vec![0x10, 0x20, 0x30]),
        other => panic!("expected a trampoline, got {other:?}"),
    }
}

#[test]
fn trampolines_release_what_they_are_done_with() {
    let skipped = destroy_trampoline(0);
    assert!(!skipped.invoke && !skipped.release);
    let done = destroy_trampoline(0x20);
    assert!(done.invoke && done.release);

    assert!(!source_func_invoked(0));
    assert!(source_func_invoked(0x20));
    let again = source_func_trampoline(Some(true));
    assert_eq!((again.result, again.release), (1, false));
    let over = source_func_trampoline(Some(false));
    assert_eq!((over.result, over.release), (0, true));
    let silent = source_func_trampoline(None);
    assert_eq!((silent.result, silent.release), (0, true));
}

#[test]
fn declared_types_follow_the_kind_of_closure() {
    use_declared();
}

fn use_declared() {
    let mut ready = closure_type(CallbackTrampoline::AsyncReady);
    ready.source_type = Some(Box::new(Type::GObject(GObjectType::new(true))));
    ready.arg_types = Some(vec![Type::Boolean]);
    assert_eq!(
        native::cif::callback::declared_type(&ready, 0),
        Some(&Type::GObject(GObjectType::new(true)))
    );
    assert_eq!(native::cif::callback::declared_type(&ready, 1), None);
    assert_eq!(native::cif::callback::declared_type(&ready, 2), None);
    let mut plain = closure_type(CallbackTrampoline::Closure);
    plain.arg_types = Some(vec![Type::Boolean, Type::Null]);
    assert_eq!(native::cif::callback::declared_type(&plain, 1), Some(&Type::Null));
    assert_eq!(native::cif::callback::declared_type(&plain, 2), None);
    assert_eq!(
        native::cif::callback::declared_type(&closure_type(CallbackTrampoline::Destroy), 0),
        None
    );
}
