//! Descriptors of homogeneous collections.
//!
//! Three containers are told apart: a flat array, a doubly-linked list and
//! a singly-linked list. Each is passed as a pointer.

use vstd::prelude::*;
use vstd::string::*;
use crate::error::{Error, Malformed};
use crate::js_ext::{JsObjectExt, JsValue};
use crate::types::Type;

verus! {

/// The container that holds the items.
#[derive(Debug, Clone, Copy, PartialEq, Eq, Structural)]
pub enum ListType {
    Array,
    GList,
    GSList,
}

impl Default for ListType {
    fn default() -> (r: Self)
        ensures
            r == ListType::Array,
    {
        ListType::Array
    }
}

impl ListType {
    /// The container that a name stands for: `glist` the doubly-linked
    /// list, `gslist` the singly-linked one, anything else, and no name,
    /// the flat array.
    pub open spec fn named(name: Option<Seq<char>>) -> ListType {
        if name == Some("glist"@) {
            ListType::GList
        } else if name == Some("gslist"@) {
            ListType::GSList
        } else {
            ListType::Array
        }
    }

    /// The container that a name stands for.
    pub fn from_name(name: &Option<String>) -> (r: Self)
        ensures
            r == Self::named(
                match name {
                    Some(s) => Some(s@),
                    None => None,
                },
            ),
    {
        match name {
            Some(s) => {
                if *s == String::from_str("glist") {
                    ListType::GList
                } else if *s == String::from_str("gslist") {
                    ListType::GSList
                } else {
                    ListType::Array
                }
            },
            None => ListType::Array,
        }
    }
}

/// Descriptor of a collection.
#[derive(Debug, PartialEq, Eq)]
pub struct ArrayType {
    pub item_type: Box<Type>,
    pub list_type: ListType,
    pub is_borrowed: bool,
}

impl ArrayType {
    /// Whether `r` is what a scripting value reads as for a collection of
    /// `item_type`: an object whose property `listType`, a string, names
    /// the container, and whose property `borrowed`, a boolean, says
    /// whether the collection stays the callee's. Either property may be
    /// missing or undefined; one of another kind is refused, the
    /// container's first.
    pub open spec fn reads(value: JsValue, item_type: Type, r: Result<ArrayType, Error<'static>>) -> bool {
        match value {
            JsValue::Object(object) => {
                let list = object.find("listType"@);
                let borrowed = object.find("borrowed"@);
                if !(list is None || list == Some(JsValue::Undefined) || (list matches Some(
                    JsValue::String(_),
                ))) {
                    r == Err::<ArrayType, Error<'static>>(
                        Error::MalformedDescriptor { reason: Malformed::NotAString },
                    )
                } else if !(borrowed is None || borrowed == Some(JsValue::Undefined) || (
                borrowed matches Some(JsValue::Boolean(_)))) {
                    r == Err::<ArrayType, Error<'static>>(
                        Error::MalformedDescriptor { reason: Malformed::NotABoolean },
                    )
                } else {
                    r matches Ok(t) && *t.item_type == item_type && t.list_type == ListType::named(
                        match list {
                            Some(JsValue::String(s)) => Some(s@),
                            _ => None,
                        },
                    ) && t.is_borrowed == (match borrowed {
                        Some(JsValue::Boolean(b)) => b,
                        _ => false,
                    })
                }
            },
            _ => r == Err::<ArrayType, Error<'static>>(
                Error::MalformedDescriptor { reason: Malformed::NotAnObject },
            ),
        }
    }

    /// Reads the descriptor of a collection of `item_type` from a
    /// scripting value.
    pub fn from_js_value(value: &JsValue, item_type: Type) -> (r: Result<Self, Error<'static>>)
        ensures
            Self::reads(*value, item_type, r),
    {
        let obj = value.as_object()?;
        let list_type_str = obj.get_optional_string("listType")?;
        let list_type = ListType::from_name(&list_type_str);
        let is_borrowed = obj.get_bool_or_default("borrowed", false)?;
        Ok(ArrayType { item_type: Box::new(item_type), list_type, is_borrowed })
    }

    /// A flat array of `item_type` that the callee does not keep.
    pub fn new(item_type: Type) -> (r: Self)
        ensures
            *r.item_type == item_type,
            r.list_type == ListType::Array,
            !r.is_borrowed,
    {
        ArrayType { item_type: Box::new(item_type), list_type: ListType::Array, is_borrowed: false }
    }
}

} // verus!
