//! Scripting values before they are classified: what a descriptor is
//! read from.
//!
//! A descriptor arrives as a scripting object with named properties. The
//! embedding copies what it is handed into a [`JsValue`]; reading a
//! descriptor from it is then a matter of plain values.

use vstd::prelude::*;
use vstd::string::*;
use crate::error::{Error, Malformed};
use crate::number::Double;
use crate::text::{first_index, lemma_first_index};

verus! {

/// A scripting value as the scripting runtime has it.
#[derive(Debug, PartialEq, Eq)]
pub enum JsValue {
    Undefined,
    Null,
    Boolean(bool),
    Number(Double),
    String(String),
    Object(JsObject),
    /// A function, by the identifier under which the embedding keeps it.
    Function(u64),
    /// A value of any other kind.
    Other,
}

/// A scripting object: its properties, by name.
#[derive(Debug, PartialEq, Eq)]
pub struct JsObject {
    pub properties: Vec<(String, JsValue)>,
}

/// Whether property `i` has the given name.
pub open spec fn is_named(properties: Seq<(String, JsValue)>, key: Seq<char>) -> spec_fn(
    int,
) -> bool {
    |i: int| properties[i].0@ == key
}

impl JsObject {
    /// The first property of the given name, if there is one.
    pub open spec fn find(&self, key: Seq<char>) -> Option<JsValue> {
        let k = first_index(is_named(self.properties@, key), 0, self.properties@.len() as int);
        if k < self.properties@.len() {
            Some(self.properties@[k].1)
        } else {
            None
        }
    }

    /// Looks a property up by name. An object that has no such property
    /// gives none.
    pub fn prop(&self, key: &str) -> (r: Option<&JsValue>)
        ensures
            self.find(key@) matches Some(v) ==> r == Some(&v),
            self.find(key@) is None ==> r is None,
    {
        let wanted = String::from_str(key);
        let mut i: usize = 0;
        while i < self.properties.len()
            invariant
                i <= self.properties@.len(),
                wanted@ == key@,
                forall|j: int| 0 <= j < i ==> !#[trigger] is_named(self.properties@, key@)(j),
            decreases self.properties.len() - i,
        {
            if self.properties[i].0 == wanted {
                proof {
                    lemma_first_index(
                        is_named(self.properties@, key@),
                        0,
                        self.properties@.len() as int,
                        i as int,
                    );
                }
                return Some(&self.properties[i].1);
            }
            i += 1;
        }
        proof {
            lemma_first_index(
                is_named(self.properties@, key@),
                0,
                self.properties@.len() as int,
                self.properties@.len() as int,
            );
        }
        None
    }
}

/// Reading optional properties of a scripting object.
pub trait JsObjectExt {
    /// The first property of the given name, if there is one.
    spec fn property(&self, key: Seq<char>) -> Option<JsValue>;

    /// A boolean property: its value; `default` where the object has no
    /// such property or has it undefined; a refusal where the property
    /// is no boolean.
    fn get_bool_or_default(&self, key: &str, default: bool) -> (r: Result<bool, Error<'static>>)
        ensures
            r == match self.property(key@) {
                None | Some(JsValue::Undefined) => Ok::<bool, Error<'static>>(default),
                Some(JsValue::Boolean(b)) => Ok::<bool, Error<'static>>(b),
                Some(_) => Err::<bool, Error<'static>>(
                    Error::MalformedDescriptor { reason: Malformed::NotABoolean },
                ),
            },
    ;

    /// A string property: its value; none where the object has no such
    /// property or has it undefined; a refusal where the property is no
    /// string.
    fn get_optional_string(&self, key: &str) -> (r: Result<Option<String>, Error<'static>>)
        ensures
            match self.property(key@) {
                None | Some(JsValue::Undefined) => r == Ok::<Option<String>, Error<'static>>(None),
                Some(JsValue::String(s)) => r matches Ok(Some(text)) && text@ == s@,
                Some(_) => r == Err::<Option<String>, Error<'static>>(
                    Error::MalformedDescriptor { reason: Malformed::NotAString },
                ),
            },
    ;
}

impl JsObjectExt for JsObject {
    open spec fn property(&self, key: Seq<char>) -> Option<JsValue> {
        self.find(key)
    }

    fn get_bool_or_default(&self, key: &str, default: bool) -> (r: Result<bool, Error<'static>>) {
        match self.prop(key) {
            None => Ok(default),
            Some(JsValue::Undefined) => Ok(default),
            Some(JsValue::Boolean(b)) => Ok(*b),
            Some(_) => Err(Error::MalformedDescriptor { reason: Malformed::NotABoolean }),
        }
    }

    fn get_optional_string(&self, key: &str) -> (r: Result<Option<String>, Error<'static>>) {
        match self.prop(key) {
            None => Ok(None),
            Some(JsValue::Undefined) => Ok(None),
            Some(JsValue::String(s)) => Ok(Some(s.clone())),
            Some(_) => Err(Error::MalformedDescriptor { reason: Malformed::NotAString }),
        }
    }
}

impl JsValue {
    /// The object that the value is; a refusal for any other value.
    pub fn as_object(&self) -> (r: Result<&JsObject, Error<'static>>)
        ensures
            self matches JsValue::Object(o) ==> r == Ok::<&JsObject, Error<'static>>(o),
            !(self is Object) ==> r == Err::<&JsObject, Error<'static>>(
                Error::MalformedDescriptor { reason: Malformed::NotAnObject },
            ),
    {
        match self {
            JsValue::Object(o) => Ok(o),
            _ => Err(Error::MalformedDescriptor { reason: Malformed::NotAnObject }),
        }
    }

    /// The boolean that the value is, if it is one.
    pub open spec fn boolean(&self) -> Option<bool> {
        match self {
            JsValue::Boolean(b) => Some(*b),
            _ => None,
        }
    }
}

/// The value of a property, the undefined value where the object has no
/// such property.
pub open spec fn property_or_undefined(object: &JsObject, key: Seq<char>) -> JsValue {
    match object.find(key) {
        Some(v) => v,
        None => JsValue::Undefined,
    }
}

/// The boolean value of a property; `default` where the property is
/// missing or no boolean.
pub open spec fn boolean_or(object: &JsObject, key: Seq<char>, default: bool) -> bool {
    match object.find(key) {
        Some(JsValue::Boolean(b)) => b,
        _ => default,
    }
}

/// The text of a property that is a string; none where the property is
/// missing or no string.
pub open spec fn string_or_none(object: &JsObject, key: Seq<char>) -> Option<Seq<char>> {
    match object.find(key) {
        Some(JsValue::String(s)) => Some(s@),
        _ => None,
    }
}

/// Reads a string property leniently.
pub fn get_string_or_none(object: &JsObject, key: &str) -> (r: Option<String>)
    ensures
        string_or_none(object, key@) matches Some(text) ==> r matches Some(s) && s@ == text,
        string_or_none(object, key@) is None ==> r is None,
{
    match object.prop(key) {
        Some(JsValue::String(s)) => Some(s.clone()),
        _ => None,
    }
}

/// Reads a boolean property leniently.
pub fn get_boolean_or(object: &JsObject, key: &str, default: bool) -> (r: bool)
    ensures
        r == boolean_or(object, key@, default),
{
    match object.prop(key) {
        Some(JsValue::Boolean(b)) => *b,
        _ => default,
    }
}

} // verus!
