//! Conversion from values of the object system.
//!
//! The object system hands callback arguments over in its own dynamically
//! typed container. [`GValue`] is what such a container holds, by kind.
//! A conversion that ends in a native object does not end here: the
//! object has to be acquired and registered, and the conversion says
//! how.

use vstd::prelude::*;
use crate::error::{Error, Operation, Subject};
use crate::managed::{Boxed, BoxedSource};
use crate::number::{Double, Single};
use crate::numeric::int_number;
use crate::text::{first_index, lemma_first_index};
use crate::types::{FloatSize, GType, IntegerSign, IntegerSize, Type};
use crate::value::Value;

verus! {

/// What a value of the object system holds.
#[derive(Debug, PartialEq, Eq)]
pub enum GValue {
    Boolean(bool),
    Char(i8),
    UChar(u8),
    Int(i32),
    UInt(u32),
    Long(i64),
    ULong(u64),
    Int64(i64),
    UInt64(u64),
    /// A value of an enumeration type.
    Enum(i32),
    /// A value of a flags type.
    Flags(u32),
    Float(Single),
    Double(Double),
    /// A string, or the null string.
    String(Option<String>),
    /// An object, and whether its class pointer is set.
    Object { ptr: usize, has_class: bool },
    /// A boxed value of the given type.
    Boxed { gtype: GType, ptr: usize },
    Variant(usize),
    Param(usize),
    /// A value of any other type.
    Other(GType),
}

/// What a [`GValue`] is.
pub enum GValueView {
    Boolean(bool),
    Char(i8),
    UChar(u8),
    Int(i32),
    UInt(u32),
    Long(i64),
    ULong(u64),
    Int64(i64),
    UInt64(u64),
    Enum(i32),
    Flags(u32),
    Float(Single),
    Double(Double),
    String(Option<Seq<char>>),
    Object { ptr: usize, has_class: bool },
    Boxed { gtype: GType, ptr: usize },
    Variant(usize),
    Param(usize),
    Other(GType),
}

impl View for GValue {
    type V = GValueView;

    open spec fn view(&self) -> GValueView {
        match self {
            GValue::Boolean(v) => GValueView::Boolean(*v),
            GValue::Char(v) => GValueView::Char(*v),
            GValue::UChar(v) => GValueView::UChar(*v),
            GValue::Int(v) => GValueView::Int(*v),
            GValue::UInt(v) => GValueView::UInt(*v),
            GValue::Long(v) => GValueView::Long(*v),
            GValue::ULong(v) => GValueView::ULong(*v),
            GValue::Int64(v) => GValueView::Int64(*v),
            GValue::UInt64(v) => GValueView::UInt64(*v),
            GValue::Enum(v) => GValueView::Enum(*v),
            GValue::Flags(v) => GValueView::Flags(*v),
            GValue::Float(v) => GValueView::Float(*v),
            GValue::Double(v) => GValueView::Double(*v),
            GValue::String(v) => GValueView::String(
                match v {
                    Some(s) => Some(s@),
                    None => None,
                },
            ),
            GValue::Object { ptr, has_class } => GValueView::Object {
                ptr: *ptr,
                has_class: *has_class,
            },
            GValue::Boxed { gtype, ptr } => GValueView::Boxed { gtype: *gtype, ptr: *ptr },
            GValue::Variant(v) => GValueView::Variant(*v),
            GValue::Param(v) => GValueView::Param(*v),
            GValue::Other(v) => GValueView::Other(*v),
        }
    }
}

/// A native object that a conversion ends in, and what has to be done
/// for a wrapper to manage it.
#[derive(Debug, Clone, Copy, PartialEq, Eq, Structural)]
pub enum Acquire {
    /// The object at `ptr`. Of a borrowed one a reference is to be taken;
    /// an owned one comes with its reference.
    GObject { ptr: usize, owned: bool },
    /// The boxed value at `ptr`, of the type that its descriptor resolves
    /// to, else of `value_type`. A borrowed one is to be copied; an owned
    /// one is taken over.
    Boxed { ptr: usize, value_type: Option<GType>, owned: bool },
    /// The fundamental value at `ptr`, whose reference and release
    /// functions are to be looked up. Of a borrowed one a reference is to
    /// be taken; an owned one is taken over.
    Fundamental { ptr: usize, owned: bool },
}

impl Acquire {
    /// The type of a boxed value: the one that its descriptor resolves
    /// to, else the one that came with the value.
    pub open spec fn boxed_type(value_type: Option<GType>, resolved: Option<GType>) -> Option<
        GType,
    > {
        match resolved {
            Some(g) => Some(g),
            None => value_type,
        }
    }

    /// Where the wrapper of a boxed value gets its value from, once it is
    /// known what the descriptor's type resolves to.
    pub fn boxed_source(ptr: usize, value_type: Option<GType>, owned: bool, resolved: Option<GType>) -> (r:
        Result<BoxedSource, Error<'static>>)
        ensures
            owned ==> r == Ok::<BoxedSource, Error<'static>>(
                BoxedSource::Ready(
                    Boxed::owned(ptr, Self::boxed_type(value_type, resolved), None),
                ),
            ),
            !owned ==> r == Boxed::from_none(
                Self::boxed_type(value_type, resolved),
                ptr,
                None,
                None,
            ),
    {
        let gtype = match resolved {
            Some(g) => Some(g),
            None => value_type,
        };
        if owned {
            Ok(BoxedSource::Ready(Boxed::from_glib_full(gtype, ptr)))
        } else {
            Boxed::from_glib_none(gtype, ptr)
        }
    }
}

/// What a conversion to a scripting value gives.
#[derive(Debug, PartialEq, Eq)]
pub enum Converted {
    /// The scripting value.
    Value(Value),
    /// NUL-terminated text at `ptr` is to be read; it becomes a string.
    /// Text that the caller owns is to be freed after reading.
    Text { ptr: usize, owned: bool },
    /// A native object is to be acquired and registered; its handle
    /// becomes the value.
    Object(Acquire),
}

/// What a [`Converted`] is.
pub enum ConvertedView {
    Number(Double),
    String(Seq<char>),
    Boolean(bool),
    Null,
    Text { ptr: usize, owned: bool },
    Object(Acquire),
}

impl Converted {
    /// Whether the conversion gave what `view` describes.
    pub open spec fn is(self, view: ConvertedView) -> bool {
        match view {
            ConvertedView::Number(n) => self == Converted::Value(Value::Number(n)),
            ConvertedView::String(text) => self matches Converted::Value(Value::String(s)) && s@
                == text,
            ConvertedView::Boolean(b) => self == Converted::Value(Value::Boolean(b)),
            ConvertedView::Null => self == Converted::Value(Value::Null),
            ConvertedView::Text { ptr, owned } => self == (Converted::Text { ptr, owned }),
            ConvertedView::Object(acquire) => self == Converted::Object(acquire),
        }
    }
}

/// Whether `r` is the outcome `expected` of a conversion.
pub open spec fn converts(expected: Result<ConvertedView, Error<'static>>, r: Result<Converted, Error<'static>>) -> bool {
    match expected {
        Ok(view) => r matches Ok(c) && c.is(view),
        Err(e) => r == Err::<Converted, Error<'static>>(e),
    }
}

/// The integer that a value of the object system gives under an integer
/// descriptor. Each width and signedness reads the kind of value that the
/// object system keeps such integers in: 8 bits a character, 16 and 32
/// bits an int, 64 bits a 64-bit int. Sixteen-bit integers are the low
/// sixteen bits of the int. Enumerations are read as signed 32-bit
/// values and flags as unsigned ones, whatever width is declared for
/// them elsewhere.
pub open spec fn glib_integer(gvalue: GValueView, size: IntegerSize, sign: IntegerSign) -> Option<
    int,
> {
    match (size, sign, gvalue) {
        (IntegerSize::_8, IntegerSign::Signed, GValueView::Char(v)) => Some(v as int),
        (IntegerSize::_8, IntegerSign::Unsigned, GValueView::UChar(v)) => Some(v as int),
        (IntegerSize::_16, IntegerSign::Signed, GValueView::Int(v)) => Some((v as i16) as int),
        (IntegerSize::_16, IntegerSign::Unsigned, GValueView::UInt(v)) => Some((v as u16) as int),
        (IntegerSize::_32, IntegerSign::Signed, GValueView::Enum(v)) => Some(v as int),
        (IntegerSize::_32, IntegerSign::Signed, GValueView::Int(v)) => Some(v as int),
        (IntegerSize::_32, IntegerSign::Unsigned, GValueView::Flags(v)) => Some(v as int),
        (IntegerSize::_32, IntegerSign::Unsigned, GValueView::UInt(v)) => Some(v as int),
        (IntegerSize::_64, IntegerSign::Signed, GValueView::Int64(v)) => Some(v as int),
        (IntegerSize::_64, IntegerSign::Unsigned, GValueView::UInt64(v)) => Some(v as int),
        _ => None,
    }
}

/// What a value of the object system converts to under a descriptor.
pub open spec fn from_glib(gvalue: GValueView, ty: Type) -> Result<ConvertedView, Error<'static>> {
    match ty {
        Type::Integer(t) => match glib_integer(gvalue, t.size, t.sign) {
            Some(v) => Ok(ConvertedView::Number(int_number(v))),
            None => Err(Error::GValueType { subject: Subject::Integer }),
        },
        Type::Float(t) => match (t.size, gvalue) {
            (FloatSize::_32, GValueView::Float(v)) => Ok(
                ConvertedView::Number(Double { bits: v.widened() as u64 }),
            ),
            (FloatSize::_64, GValueView::Double(v)) => Ok(ConvertedView::Number(v)),
            _ => Err(Error::GValueType { subject: Subject::Float }),
        },
        Type::String(_) => match gvalue {
            GValueView::String(Some(text)) => Ok(ConvertedView::String(text)),
            _ => Err(Error::GValueType { subject: Subject::String }),
        },
        Type::Boolean => match gvalue {
            GValueView::Boolean(b) => Ok(ConvertedView::Boolean(b)),
            _ => Err(Error::GValueType { subject: Subject::Boolean }),
        },
        Type::GObject(_) => from_glib_object(gvalue),
        Type::Boxed(_) => match gvalue {
            GValueView::Boxed { gtype, ptr } => if ptr == 0 {
                Ok(ConvertedView::Null)
            } else {
                Ok(ConvertedView::Object(Acquire::Boxed { ptr, value_type: Some(gtype), owned: false }))
            },
            _ => Ok(ConvertedView::Null),
        },
        Type::Null | Type::Undefined => Ok(ConvertedView::Null),
        Type::Fundamental(t) => match gvalue {
            GValueView::Variant(ptr) | GValueView::Param(ptr) => if ptr == 0 {
                Ok(ConvertedView::Null)
            } else {
                Ok(ConvertedView::Object(Acquire::Fundamental { ptr, owned: !t.is_borrowed }))
            },
            _ => Err(Error::UnsupportedType { operation: Operation::FromGlib }),
        },
        Type::Struct(_) | Type::Array(_) | Type::Ref(_) | Type::Callback(_) => Err(
            Error::UnsupportedType { operation: Operation::FromGlib },
        ),
    }
}

/// What an object value converts to: null for the null object and for
/// anything that is no object; a failure for an object without class,
/// which may have been freed; else the object, of which a reference is to
/// be taken.
pub open spec fn from_glib_object(gvalue: GValueView) -> Result<ConvertedView, Error<'static>> {
    match gvalue {
        GValueView::Object { ptr, has_class } => if ptr == 0 {
            Ok(ConvertedView::Null)
        } else if !has_class {
            Err(Error::InvalidClass)
        } else {
            Ok(ConvertedView::Object(Acquire::GObject { ptr, owned: false }))
        },
        _ => Ok(ConvertedView::Null),
    }
}

/// What a value of the object system converts to where no descriptor is
/// declared for it: a boolean, a number, a string or an object as the
/// value's own kind has it; the null string becomes null. Values of
/// other kinds do not convert.
pub open spec fn from_glib_untyped(gvalue: GValueView) -> Result<ConvertedView, Error<'static>> {
    match gvalue {
        GValueView::Boolean(b) => Ok(ConvertedView::Boolean(b)),
        GValueView::Char(v) => Ok(ConvertedView::Number(int_number(v as int))),
        GValueView::UChar(v) => Ok(ConvertedView::Number(int_number(v as int))),
        GValueView::Int(v) => Ok(ConvertedView::Number(int_number(v as int))),
        GValueView::UInt(v) => Ok(ConvertedView::Number(int_number(v as int))),
        GValueView::Long(v) => Ok(ConvertedView::Number(int_number(v as int))),
        GValueView::ULong(v) => Ok(ConvertedView::Number(int_number(v as int))),
        GValueView::Int64(v) => Ok(ConvertedView::Number(int_number(v as int))),
        GValueView::UInt64(v) => Ok(ConvertedView::Number(int_number(v as int))),
        GValueView::Enum(v) => Ok(ConvertedView::Number(int_number(v as int))),
        GValueView::Flags(v) => Ok(ConvertedView::Number(int_number(v as int))),
        GValueView::Float(v) => Ok(ConvertedView::Number(Double { bits: v.widened() as u64 })),
        GValueView::Double(v) => Ok(ConvertedView::Number(v)),
        GValueView::String(Some(text)) => Ok(ConvertedView::String(text)),
        GValueView::String(None) => Ok(ConvertedView::Null),
        GValueView::Object { .. } => from_glib_object(gvalue),
        GValueView::Boxed { gtype, ptr } => if ptr == 0 {
            Ok(ConvertedView::Null)
        } else {
            Ok(ConvertedView::Object(Acquire::Boxed { ptr, value_type: Some(gtype), owned: false }))
        },
        GValueView::Variant(_) | GValueView::Param(_) | GValueView::Other(_) => Err(
            Error::UnsupportedType { operation: Operation::FromGlib },
        ),
    }
}

/// Whether argument `i` does not convert under its declared type.
pub open spec fn typed_arg_fails(args: Seq<GValue>, types: Seq<Type>) -> spec_fn(int) -> bool {
    |i: int| from_glib(args[i]@, types[i]) is Err
}

/// Whether argument `i` does not convert by its own kind.
pub open spec fn untyped_arg_fails(args: Seq<GValue>) -> spec_fn(int) -> bool {
    |i: int| from_glib_untyped(args[i]@) is Err
}

/// What arguments convert to under declared types, pair by pair as far
/// as both go: the conversions, or the failure of the first argument
/// that does not convert.
pub open spec fn typed_args(args: Seq<GValue>, types: Seq<Type>) -> Result<
    Seq<ConvertedView>,
    Error<'static>,
> {
    let n = if args.len() <= types.len() {
        args.len() as int
    } else {
        types.len() as int
    };
    let k = first_index(typed_arg_fails(args, types), 0, n);
    if k < n {
        Err(from_glib(args[k]@, types[k])->Err_0)
    } else {
        Ok(Seq::new(n as nat, |i: int| from_glib(args[i]@, types[i])->Ok_0))
    }
}

/// What arguments convert to by their own kinds: the conversions, or the
/// failure of the first argument that does not convert.
pub open spec fn untyped_args(args: Seq<GValue>) -> Result<Seq<ConvertedView>, Error<'static>> {
    let k = first_index(untyped_arg_fails(args), 0, args.len() as int);
    if k < args.len() {
        Err(from_glib_untyped(args[k]@)->Err_0)
    } else {
        Ok(Seq::new(args.len(), |i: int| from_glib_untyped(args[i]@)->Ok_0))
    }
}

/// What the arguments of a callback convert to where types have to be
/// declared for them: without declared types only no arguments convert.
pub open spec fn glib_values(args: Seq<GValue>, arg_types: Option<Vec<Type>>) -> Result<
    Seq<ConvertedView>,
    Error<'static>,
> {
    match arg_types {
        Some(types) => typed_args(args, types@),
        None => if args.len() == 0 {
            Ok(Seq::empty())
        } else {
            Err(Error::MissingArgTypes { count: args.len() as usize })
        },
    }
}

/// Whether `r` is the outcome `expected` of converting a list.
pub open spec fn converts_all(
    expected: Result<Seq<ConvertedView>, Error<'static>>,
    r: Result<Vec<Converted>, Error<'static>>,
) -> bool {
    match expected {
        Ok(views) => r matches Ok(items) && are_all(items@, views),
        Err(e) => r == Err::<Vec<Converted>, Error<'static>>(e),
    }
}

/// Whether each item is what the view at its place describes.
pub open spec fn are_all(items: Seq<Converted>, views: Seq<ConvertedView>) -> bool {
    items.len() == views.len() && forall|i: int| 0 <= i < views.len() ==> (#[trigger] items[i]).is(views[i])
}

impl Value {
    /// Converts the arguments of a callback under their declared types.
    pub fn from_glib_values(args: &Vec<GValue>, arg_types: &Option<Vec<Type>>) -> (r: Result<
        Vec<Converted>,
        Error<'static>,
    >)
        ensures
            converts_all(glib_values(args@, *arg_types), r),
    {
        match arg_types {
            Some(types) => Self::from_typed_glib_values(args, types),
            None => {
                if args.len() == 0 {
                    Ok(Vec::new())
                } else {
                    Err(Error::MissingArgTypes { count: args.len() })
                }
            },
        }
    }

    /// Converts arguments under types, pair by pair as far as both go.
    pub fn from_typed_glib_values(args: &Vec<GValue>, types: &Vec<Type>) -> (r: Result<
        Vec<Converted>,
        Error<'static>,
    >)
        ensures
            converts_all(typed_args(args@, types@), r),
    {
        let n = if args.len() <= types.len() {
            args.len()
        } else {
            types.len()
        };
        let mut out: Vec<Converted> = Vec::new();
        let mut i: usize = 0;
        while i < n
            invariant
                i <= n,
                n <= args@.len(),
                n <= types@.len(),
                n == args@.len() || n == types@.len(),
                out@.len() == i,
                forall|j: int| 0 <= j < i ==> !#[trigger] typed_arg_fails(args@, types@)(j),
                forall|j: int|
                    0 <= j < i ==> (#[trigger] out@[j]).is(from_glib(args@[j]@, types@[j])->Ok_0),
            decreases n - i,
        {
            match Self::from_glib_value(&args[i], &types[i]) {
                Ok(converted) => out.push(converted),
                Err(e) => {
                    proof {
                        lemma_first_index(typed_arg_fails(args@, types@), 0, n as int, i as int);
                    }
                    return Err(e);
                },
            }
            i += 1;
        }
        proof {
            lemma_first_index(typed_arg_fails(args@, types@), 0, n as int, n as int);
        }
        Ok(out)
    }

    /// Converts arguments by their own kinds.
    pub fn from_untyped_glib_values(args: &Vec<GValue>) -> (r: Result<Vec<Converted>, Error<'static>>)
        ensures
            converts_all(untyped_args(args@), r),
    {
        let mut out: Vec<Converted> = Vec::new();
        let mut i: usize = 0;
        while i < args.len()
            invariant
                i <= args@.len(),
                out@.len() == i,
                forall|j: int| 0 <= j < i ==> !#[trigger] untyped_arg_fails(args@)(j),
                forall|j: int|
                    0 <= j < i ==> (#[trigger] out@[j]).is(from_glib_untyped(args@[j]@)->Ok_0),
            decreases args.len() - i,
        {
            match Self::from_glib_untyped(&args[i]) {
                Ok(converted) => out.push(converted),
                Err(e) => {
                    proof {
                        lemma_first_index(
                            untyped_arg_fails(args@),
                            0,
                            args@.len() as int,
                            i as int,
                        );
                    }
                    return Err(e);
                },
            }
            i += 1;
        }
        proof {
            lemma_first_index(
                untyped_arg_fails(args@),
                0,
                args@.len() as int,
                args@.len() as int,
            );
        }
        Ok(out)
    }

    /// Converts a value of the object system under a descriptor.
    pub fn from_glib_value(gvalue: &GValue, ty: &Type) -> (r: Result<Converted, Error<'static>>)
        ensures
            converts(from_glib(gvalue@, *ty), r),
    {
        match ty {
            Type::Integer(t) => {
                let number = match (t.size, t.sign) {
                    (IntegerSize::_8, IntegerSign::Signed) => match gvalue {
                        GValue::Char(v) => Double::from_i64(*v as i64),
                        _ => return Err(Error::GValueType { subject: Subject::Integer }),
                    },
                    (IntegerSize::_8, IntegerSign::Unsigned) => match gvalue {
                        GValue::UChar(v) => Double::from_u64(*v as u64),
                        _ => return Err(Error::GValueType { subject: Subject::Integer }),
                    },
                    (IntegerSize::_16, IntegerSign::Signed) => match gvalue {
                        GValue::Int(v) => {
                            let low: i16 = #[verifier::truncate]
                            (*v as i16);
                            Double::from_i64(low as i64)
                        },
                        _ => return Err(Error::GValueType { subject: Subject::Integer }),
                    },
                    (IntegerSize::_16, IntegerSign::Unsigned) => match gvalue {
                        GValue::UInt(v) => {
                            let low: u16 = #[verifier::truncate]
                            (*v as u16);
                            Double::from_u64(low as u64)
                        },
                        _ => return Err(Error::GValueType { subject: Subject::Integer }),
                    },
                    (IntegerSize::_32, IntegerSign::Signed) => match gvalue {
                        GValue::Enum(v) => Double::from_i64(*v as i64),
                        GValue::Int(v) => Double::from_i64(*v as i64),
                        _ => return Err(Error::GValueType { subject: Subject::Integer }),
                    },
                    (IntegerSize::_32, IntegerSign::Unsigned) => match gvalue {
                        GValue::Flags(v) => Double::from_u64(*v as u64),
                        GValue::UInt(v) => Double::from_u64(*v as u64),
                        _ => return Err(Error::GValueType { subject: Subject::Integer }),
                    },
                    (IntegerSize::_64, IntegerSign::Signed) => match gvalue {
                        GValue::Int64(v) => Double::from_i64(*v),
                        _ => return Err(Error::GValueType { subject: Subject::Integer }),
                    },
                    (IntegerSize::_64, IntegerSign::Unsigned) => match gvalue {
                        GValue::UInt64(v) => Double::from_u64(*v),
                        _ => return Err(Error::GValueType { subject: Subject::Integer }),
                    },
                };
                Ok(Converted::Value(Value::Number(number)))
            },
            Type::Float(t) => {
                let number = match (t.size, gvalue) {
                    (FloatSize::_32, GValue::Float(v)) => v.to_double(),
                    (FloatSize::_64, GValue::Double(v)) => *v,
                    _ => return Err(Error::GValueType { subject: Subject::Float }),
                };
                Ok(Converted::Value(Value::Number(number)))
            },
            Type::String(_) => match gvalue {
                GValue::String(Some(text)) => Ok(Converted::Value(Value::String(text.clone()))),
                _ => Err(Error::GValueType { subject: Subject::String }),
            },
            Type::Boolean => match gvalue {
                GValue::Boolean(b) => Ok(Converted::Value(Value::Boolean(*b))),
                _ => Err(Error::GValueType { subject: Subject::Boolean }),
            },
            Type::GObject(_) => Self::from_glib_gobject(gvalue),
            Type::Boxed(_) => match gvalue {
                GValue::Boxed { gtype, ptr } => {
                    if *ptr == 0 {
                        Ok(Converted::Value(Value::Null))
                    } else {
                        Ok(Converted::Object(Acquire::Boxed { ptr: *ptr, value_type: Some(*gtype), owned: false }))
                    }
                },
                _ => Ok(Converted::Value(Value::Null)),
            },
            Type::Null | Type::Undefined => Ok(Converted::Value(Value::Null)),
            Type::Struct(_) => Err(Error::UnsupportedType { operation: Operation::FromGlib }),
            Type::Fundamental(t) => {
                let ptr = match gvalue {
                    GValue::Variant(ptr) => *ptr,
                    GValue::Param(ptr) => *ptr,
                    _ => return Err(Error::UnsupportedType { operation: Operation::FromGlib }),
                };
                if ptr == 0 {
                    return Ok(Converted::Value(Value::Null));
                }
                Ok(Converted::Object(Acquire::Fundamental { ptr, owned: !t.is_borrowed }))
            },
            Type::Array(_) | Type::Ref(_) | Type::Callback(_) => Err(
                Error::UnsupportedType { operation: Operation::FromGlib },
            ),
        }
    }

    /// Converts an object value.
    pub fn from_glib_gobject(gvalue: &GValue) -> (r: Result<Converted, Error<'static>>)
        ensures
            converts(from_glib_object(gvalue@), r),
    {
        match gvalue {
            GValue::Object { ptr, has_class } => {
                if *ptr == 0 {
                    return Ok(Converted::Value(Value::Null));
                }
                if !*has_class {
                    return Err(Error::InvalidClass);
                }
                Ok(Converted::Object(Acquire::GObject { ptr: *ptr, owned: false }))
            },
            _ => Ok(Converted::Value(Value::Null)),
        }
    }

    /// Converts a value of the object system by its own kind.
    pub fn from_glib_untyped(gvalue: &GValue) -> (r: Result<Converted, Error<'static>>)
        ensures
            converts(from_glib_untyped(gvalue@), r),
    {
        let number = match gvalue {
            GValue::Boolean(b) => return Ok(Converted::Value(Value::Boolean(*b))),
            GValue::Char(v) => Double::from_i64(*v as i64),
            GValue::UChar(v) => Double::from_u64(*v as u64),
            GValue::Int(v) => Double::from_i64(*v as i64),
            GValue::UInt(v) => Double::from_u64(*v as u64),
            GValue::Long(v) => Double::from_i64(*v),
            GValue::ULong(v) => Double::from_u64(*v),
            GValue::Int64(v) => Double::from_i64(*v),
            GValue::UInt64(v) => Double::from_u64(*v),
            GValue::Enum(v) => Double::from_i64(*v as i64),
            GValue::Flags(v) => Double::from_u64(*v as u64),
            GValue::Float(v) => v.to_double(),
            GValue::Double(v) => *v,
            GValue::String(Some(text)) => return Ok(
                Converted::Value(Value::String(text.clone())),
            ),
            GValue::String(None) => return Ok(Converted::Value(Value::Null)),
            GValue::Object { .. } => return Self::from_glib_gobject(gvalue),
            GValue::Boxed { gtype, ptr } => {
                if *ptr == 0 {
                    return Ok(Converted::Value(Value::Null));
                }
                return Ok(Converted::Object(Acquire::Boxed { ptr: *ptr, value_type: Some(*gtype), owned: false }));
            },
            GValue::Variant(_) | GValue::Param(_) | GValue::Other(_) => {
                return Err(Error::UnsupportedType { operation: Operation::FromGlib });
            },
        };
        Ok(Converted::Value(Value::Number(number)))
    }
}

} // verus!
