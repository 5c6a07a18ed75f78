//! The type descriptor model: the shape of one native value.

use vstd::prelude::*;

pub mod integer;
pub mod float;
pub mod string;
pub mod gobject;
pub mod gvariant;
pub mod boxed;
pub mod array;
pub mod reference;
pub mod callback;
pub mod fundamental;

pub use integer::{IntegerSign, IntegerSize, IntegerType};
pub use float::{FloatSize, FloatType};
pub use string::StringType;
pub use gobject::GObjectType;
pub use gvariant::GVariantType;
pub use boxed::{BoxedType, GTypeLookup, type_name_to_get_type_fn};
pub use array::{ArrayType, ListType};
pub use reference::RefType;
pub use callback::{CallbackTrampoline, CallbackType};
pub use fundamental::{FundamentalType, StructType};

verus! {

/// The primitive under which the native call interface passes a value.
#[derive(Debug, Clone, Copy, PartialEq, Eq, Structural)]
pub enum NativeTag {
    U8,
    I8,
    U16,
    I16,
    U32,
    I32,
    U64,
    I64,
    F32,
    F64,
    Pointer,
}

/// The shape of one native value.
#[derive(Debug, PartialEq, Eq)]
pub enum Type {
    Integer(IntegerType),
    Float(FloatType),
    String(StringType),
    Boolean,
    Null,
    Undefined,
    GObject(GObjectType),
    Boxed(BoxedType),
    Fundamental(FundamentalType),
    Array(ArrayType),
    Ref(RefType),
    Callback(CallbackType),
    Struct(StructType),
}

impl Type {
    /// The primitive under which a value of this shape is passed: an
    /// integer or a floating-point number as itself, a boolean as one
    /// unsigned byte, everything else as a pointer.
    pub open spec fn spec_native_tag(self) -> NativeTag {
        match self {
            Type::Integer(t) => t.spec_native_tag(),
            Type::Float(t) => t.spec_native_tag(),
            Type::Boolean => NativeTag::U8,
            _ => NativeTag::Pointer,
        }
    }

    /// The primitive under which a value of this shape is passed.
    pub fn to_native_type_tag(&self) -> (r: NativeTag)
        ensures
            r == self.spec_native_tag(),
    {
        match self {
            Type::Integer(t) => t.native_tag(),
            Type::Float(t) => t.native_tag(),
            Type::Boolean => NativeTag::U8,
            _ => NativeTag::Pointer,
        }
    }
}

/// Whether two descriptors describe the same shape: they are equal,
/// their lists of argument types item by item.
pub open spec fn alike(a: Type, b: Type) -> bool
    decreases a,
{
    match (a, b) {
        (Type::Array(x), Type::Array(y)) => alike(*x.item_type, *y.item_type) && x.list_type
            == y.list_type && x.is_borrowed == y.is_borrowed,
        (Type::Ref(x), Type::Ref(y)) => alike(*x.inner_type, *y.inner_type),
        (Type::Callback(x), Type::Callback(y)) => x.trampoline == y.trampoline && (match (
            x.arg_types,
            y.arg_types,
        ) {
            (Some(xs), Some(ys)) => xs@.len() == ys@.len() && forall|i: int|
                0 <= i < xs@.len() ==> alike(#[trigger] xs@[i], ys@[i]),
            (None, None) => true,
            _ => false,
        }) && (match (x.return_type, y.return_type) {
            (Some(p), Some(q)) => alike(*p, *q),
            (None, None) => true,
            _ => false,
        }) && (match (x.source_type, y.source_type) {
            (Some(p), Some(q)) => alike(*p, *q),
            (None, None) => true,
            _ => false,
        }) && (match (x.result_type, y.result_type) {
            (Some(p), Some(q)) => alike(*p, *q),
            (None, None) => true,
            _ => false,
        }),
        (Type::Array(_), _) | (Type::Ref(_), _) | (Type::Callback(_), _) => false,
        _ => a == b,
    }
}

/// Whether two optional descriptors are both missing or alike.
pub open spec fn alike_optional(a: Option<Box<Type>>, b: Option<Box<Type>>) -> bool {
    match (a, b) {
        (Some(p), Some(q)) => alike(*p, *q),
        (None, None) => true,
        _ => false,
    }
}

fn clone_optional(t: &Option<Box<Type>>) -> (r: Option<Box<Type>>)
    ensures
        alike_optional(*t, r),
    decreases t,
{
    match t {
        None => None,
        Some(inner) => Some(Box::new(clone_type(&**inner))),
    }
}

fn clone_list(types: &Vec<Type>) -> (r: Vec<Type>)
    ensures
        r@.len() == types@.len(),
        forall|i: int| 0 <= i < types@.len() ==> alike(#[trigger] types@[i], r@[i]),
    decreases types,
{
    let mut out: Vec<Type> = Vec::new();
    let mut i: usize = 0;
    while i < types.len()
        invariant
            i <= types.len(),
            out@.len() == i,
            forall|j: int| 0 <= j < i ==> alike(#[trigger] types@[j], out@[j]),
        decreases types.len() - i,
    {
        let item = clone_type(&types[i]);
        out.push(item);
        i += 1;
    }
    out
}

fn clone_type(t: &Type) -> (r: Type)
    ensures
        alike(*t, r),
    decreases t,
{
    match t {
        Type::Integer(x) => Type::Integer(*x),
        Type::Float(x) => Type::Float(*x),
        Type::String(x) => Type::String(*x),
        Type::Boolean => Type::Boolean,
        Type::Null => Type::Null,
        Type::Undefined => Type::Undefined,
        Type::GObject(x) => Type::GObject(*x),
        Type::Boxed(x) => Type::Boxed(
            BoxedType {
                is_borrowed: x.is_borrowed,
                type_: x.type_.clone(),
                lib: clone_text(&x.lib),
                get_type_fn: clone_text(&x.get_type_fn),
            },
        ),
        Type::Fundamental(x) => Type::Fundamental(
            FundamentalType {
                is_borrowed: x.is_borrowed,
                lib: x.lib.clone(),
                ref_func: x.ref_func.clone(),
                unref_func: x.unref_func.clone(),
            },
        ),
        Type::Array(x) => Type::Array(
            ArrayType {
                item_type: Box::new(clone_type(&*x.item_type)),
                list_type: x.list_type,
                is_borrowed: x.is_borrowed,
            },
        ),
        Type::Ref(x) => Type::Ref(RefType { inner_type: Box::new(clone_type(&*x.inner_type)) }),
        Type::Callback(x) => Type::Callback(
            CallbackType {
                trampoline: x.trampoline,
                arg_types: match &x.arg_types {
                    None => None,
                    Some(list) => Some(clone_list(list)),
                },
                return_type: clone_optional(&x.return_type),
                source_type: clone_optional(&x.source_type),
                result_type: clone_optional(&x.result_type),
            },
        ),
        Type::Struct(x) => Type::Struct(
            StructType { is_borrowed: x.is_borrowed, type_: x.type_.clone(), size: x.size },
        ),
    }
}

fn clone_text(t: &Option<String>) -> (r: Option<String>)
    ensures
        r == *t,
{
    match t {
        None => None,
        Some(s) => Some(s.clone()),
    }
}

impl Clone for Type {
    /// A descriptor of the same shape, built anew.
    fn clone(&self) -> (r: Self)
        ensures
            alike(*self, r),
    {
        clone_type(self)
    }
}

impl Clone for ArrayType {
    fn clone(&self) -> (r: Self)
        ensures
            alike(Type::Array(*self), Type::Array(r)),
    {
        ArrayType {
            item_type: Box::new(clone_type(&*self.item_type)),
            list_type: self.list_type,
            is_borrowed: self.is_borrowed,
        }
    }
}

impl Clone for RefType {
    fn clone(&self) -> (r: Self)
        ensures
            alike(Type::Ref(*self), Type::Ref(r)),
    {
        RefType { inner_type: Box::new(clone_type(&*self.inner_type)) }
    }
}

impl Clone for CallbackType {
    fn clone(&self) -> (r: Self)
        ensures
            alike(Type::Callback(*self), Type::Callback(r)),
    {
        CallbackType {
            trampoline: self.trampoline,
            arg_types: match &self.arg_types {
                None => None,
                Some(list) => Some(clone_list(list)),
            },
            return_type: clone_optional(&self.return_type),
            source_type: clone_optional(&self.source_type),
            result_type: clone_optional(&self.result_type),
        }
    }
}

/// Identifier of a type registered with the object system.
#[derive(Debug, Clone, Copy, PartialEq, Eq, Structural)]
pub struct GType {
    pub id: usize,
}

} // verus!
