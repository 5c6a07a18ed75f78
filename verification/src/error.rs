//! What can go wrong while marshaling.

use vstd::prelude::*;
use vstd::string::*;
use crate::render::{
    address, debug, debug_native, decimal, push_address, push_debug, push_debug_native,
    push_decimal, Native, Real,
};
use crate::value::Value;

verus! {

/// The kinds of scripting value.
#[derive(Debug, Clone, Copy, PartialEq, Eq, Structural)]
pub enum Kind {
    Number,
    String,
    Boolean,
    Object,
    Null,
    Undefined,
    Array,
    Callback,
    Ref,
}

/// What a descriptor asks a scripting value to be.
#[derive(Debug, Clone, Copy, PartialEq, Eq, Structural)]
pub enum Expected {
    Number,
    String,
    Boolean,
    Object,
    Array,
    Callback,
    Ref,
    ObjectOrNull,
}

/// The descriptor, or the part of one, against which a value was held.
#[derive(Debug, Clone, Copy, PartialEq, Eq, Structural)]
pub enum Subject {
    Integer,
    Float,
    String,
    Boolean,
    GObject,
    Boxed,
    Fundamental,
    Array,
    Callback,
    Ref,
    /// An object known by its handle alone.
    Object,
    IntegerItem,
    FloatItem,
    StringItem,
    ObjectItem,
    BooleanItem,
    RefObject,
}

/// The operation that met a descriptor it does not handle.
#[derive(Debug, Clone, Copy, PartialEq, Eq, Structural)]
pub enum Operation {
    /// Encoding the items of an array.
    ArrayItem,
    /// Encoding a value of this shape at all.
    Encode,
    /// Decoding a native value.
    Decode,
    /// Reading a field.
    Read,
    /// Writing a field.
    Write,
    /// Converting from a value of the object system.
    FromGlib,
    /// Converting to a value of the object system.
    ToGlib,
}

/// What is wrong with a descriptor that does not read.
#[derive(Debug, Clone, Copy, PartialEq, Eq, Structural)]
pub enum Malformed {
    NotAnObject,
    NotANumber,
    NotABoolean,
    NotAString,
    NotAFunction,
    InvalidIntegerSize,
    InvalidFloatSize,
}

/// A marshaling failure. Every one is recoverable: it aborts the call in
/// hand before anything native is invoked. A failure that refuses a value
/// refers to it, so that the message can show it.
#[derive(Debug, Clone, Copy, PartialEq, Eq)]
pub enum Error<'a> {
    /// A scripting value is not of the kind that the descriptor asks for.
    /// For an item of an array, `index` is its position.
    TypeMismatch { expected: Expected, subject: Subject, actual: &'a Value, index: Option<usize> },
    /// A handle no longer resolves to a live object.
    GarbageCollected { subject: Subject, index: Option<usize> },
    /// The operation does not handle this shape of value.
    UnsupportedType { operation: Operation },
    /// Text to be passed as a NUL-terminated string holds a NUL byte at
    /// `position`.
    InteriorNul { position: usize, index: Option<usize> },
    /// A boxed value of the named type can be copied neither by type nor
    /// by size: wrapping the bare pointer would risk leaving it dangling.
    UncopyableBoxed { ptr: usize, name: Option<&'a str> },
    /// The object whose field is addressed lies at the null address.
    NullPointer { operation: Operation },
    /// The field does not lie within the object's memory.
    OutOfBounds { offset: usize, width: usize },
    /// Native text is not valid UTF-8.
    InvalidUtf8,
    /// A value of the object system does not hold what the descriptor
    /// says it does.
    GValueType { subject: Subject },
    /// A callback was given arguments but declares no argument types.
    MissingArgTypes { count: usize },
    /// An object of the object system has no class: it may have been
    /// freed.
    InvalidClass,
    /// A native value of a numeric type was expected.
    NotNumeric { native: Native },
    /// A native pointer was expected.
    NotPointer { subject: Subject, native: Native },
    /// `Null` and `Undefined` are no values of the object system.
    NullToGlib,
    /// Owned storage does not hold items of the described type.
    StorageMismatch,
    /// A descriptor does not read.
    MalformedDescriptor { reason: Malformed },
}

impl Expected {
    /// The words for it in a message.
    pub fn text(self) -> (r: &'static str)
        ensures
            r@ == self.spec_text(),
    {
        match self {
            Expected::Number => "a Number",
            Expected::String => "a String",
            Expected::Boolean => "a Boolean",
            Expected::Object => "an Object",
            Expected::Array => "an Array",
            Expected::Callback => "a Callback",
            Expected::Ref => "a Ref",
            Expected::ObjectOrNull => "an Object or Null",
        }
    }

    pub open spec fn spec_text(self) -> Seq<char> {
        match self {
            Expected::Number => "a Number"@,
            Expected::String => "a String"@,
            Expected::Boolean => "a Boolean"@,
            Expected::Object => "an Object"@,
            Expected::Array => "an Array"@,
            Expected::Callback => "a Callback"@,
            Expected::Ref => "a Ref"@,
            Expected::ObjectOrNull => "an Object or Null"@,
        }
    }
}

impl Subject {
    /// The name of it in a message.
    pub fn text(self) -> (r: &'static str)
        ensures
            r@ == self.spec_text(),
    {
        match self {
            Subject::Integer => "integer",
            Subject::Float => "float",
            Subject::String => "string",
            Subject::Boolean => "boolean",
            Subject::GObject => "gobject",
            Subject::Boxed => "boxed",
            Subject::Fundamental => "fundamental",
            Subject::Array => "array",
            Subject::Callback => "callback",
            Subject::Ref => "ref",
            Subject::Object => "object",
            Subject::IntegerItem => "integer item",
            Subject::FloatItem => "float item",
            Subject::StringItem => "string item",
            Subject::ObjectItem => "object item",
            Subject::BooleanItem => "boolean item",
            Subject::RefObject => "Ref<Boxed/GObject>",
        }
    }

    pub open spec fn spec_text(self) -> Seq<char> {
        match self {
            Subject::Integer => "integer"@,
            Subject::Float => "float"@,
            Subject::String => "string"@,
            Subject::Boolean => "boolean"@,
            Subject::GObject => "gobject"@,
            Subject::Boxed => "boxed"@,
            Subject::Fundamental => "fundamental"@,
            Subject::Array => "array"@,
            Subject::Callback => "callback"@,
            Subject::Ref => "ref"@,
            Subject::Object => "object"@,
            Subject::IntegerItem => "integer item"@,
            Subject::FloatItem => "float item"@,
            Subject::StringItem => "string item"@,
            Subject::ObjectItem => "object item"@,
            Subject::BooleanItem => "boolean item"@,
            Subject::RefObject => "Ref<Boxed/GObject>"@,
        }
    }
}

impl Kind {
    /// The name of it in a message.
    pub fn text(self) -> (r: &'static str)
        ensures
            r@ == self.spec_text(),
    {
        match self {
            Kind::Number => "Number",
            Kind::String => "String",
            Kind::Boolean => "Boolean",
            Kind::Object => "Object",
            Kind::Null => "Null",
            Kind::Undefined => "Undefined",
            Kind::Array => "Array",
            Kind::Callback => "Callback",
            Kind::Ref => "Ref",
        }
    }

    pub open spec fn spec_text(self) -> Seq<char> {
        match self {
            Kind::Number => "Number"@,
            Kind::String => "String"@,
            Kind::Boolean => "Boolean"@,
            Kind::Object => "Object"@,
            Kind::Null => "Null"@,
            Kind::Undefined => "Undefined"@,
            Kind::Array => "Array"@,
            Kind::Callback => "Callback"@,
            Kind::Ref => "Ref"@,
        }
    }
}

impl<'a> Error<'a> {
    /// The text of a mismatch: what was expected, for which descriptor,
    /// the value that came instead as a debugger would show it, and for
    /// an item of an array its position.
    pub open spec fn mismatch_text(
        expected: Expected,
        subject: Subject,
        actual: Value,
        index: Option<usize>,
        table: Seq<(Real, String)>,
    ) -> Seq<char> {
        "Expected "@ + expected.spec_text() + " for "@ + subject.spec_text() + " type, got "@
            + debug(actual, table) + Self::position_text(index)
    }

    /// The words for what was found collected.
    pub open spec fn collected_text(subject: Subject) -> Seq<char> {
        match subject {
            Subject::GObject => "GObject"@,
            Subject::Boxed => "Boxed object"@,
            Subject::ObjectItem => "GObject in array"@,
            Subject::Ref => "Ref object"@,
            _ => "Object"@,
        }
    }

    /// The words for what an operation does not handle.
    pub open spec fn unsupported_text(operation: Operation) -> Seq<char> {
        match operation {
            Operation::ArrayItem => "Unsupported array item type"@,
            Operation::Encode => "Unsupported type for an argument"@,
            Operation::Decode => "Unsupported type for a native value"@,
            Operation::Read => "Unsupported field type for read"@,
            Operation::Write => "Unsupported field type for write"@,
            Operation::FromGlib => "Type should not appear in glib value conversion"@,
            Operation::ToGlib => "Unsupported Value type for glib::Value conversion"@,
        }
    }

    /// The words for what is wrong with a descriptor.
    pub open spec fn malformed_text(reason: Malformed) -> Seq<char> {
        match reason {
            Malformed::NotAnObject => "failed to downcast any to object"@,
            Malformed::NotANumber => "failed to downcast any to number"@,
            Malformed::NotABoolean => "failed to downcast any to boolean"@,
            Malformed::NotAString => "failed to downcast any to string"@,
            Malformed::NotAFunction => "failed to downcast any to function"@,
            Malformed::InvalidIntegerSize => "Invalid integer size"@,
            Malformed::InvalidFloatSize => "Invalid float size"@,
        }
    }

    /// The position of an item, where the failure is about one.
    pub open spec fn position_text(index: Option<usize>) -> Seq<char> {
        match index {
            Some(k) => " at index "@ + decimal(k as int),
            None => Seq::empty(),
        }
    }

    /// The message of a failure, given the digits of the numbers that it
    /// shows.
    pub open spec fn text(self, table: Seq<(Real, String)>) -> Seq<char> {
        match self {
            Error::TypeMismatch { expected, subject, actual, index } => Self::mismatch_text(
                expected,
                subject,
                *actual,
                index,
                table,
            ),
            Error::GarbageCollected { subject, index } => Self::collected_text(subject)
                + " has been garbage collected"@ + Self::position_text(index),
            Error::UnsupportedType { operation } => Self::unsupported_text(operation),
            Error::InteriorNul { position, index } =>
                "nul byte found in provided data at position: "@ + decimal(position as int)
                + Self::position_text(index),
            Error::UncopyableBoxed { ptr, name } => "Cannot safely copy boxed type '"@ + (match name {
                Some(n) => n@,
                None => "unknown"@,
            }) + "': no size info or gtype. Pointer "@ + address(ptr)
                + " may become dangling if the source is freed"@,
            Error::NullPointer { operation } => if operation == Operation::Write {
                "Cannot write field to null pointer"@
            } else {
                "Cannot read field from null pointer"@
            },
            Error::OutOfBounds { offset, width } => "Field lies outside the object"@,
            Error::InvalidUtf8 => "Native text is not valid UTF-8"@,
            Error::GValueType { subject } => "Failed to get "@ + subject.spec_text()
                + " from GValue"@,
            Error::MissingArgTypes { count } => "Callback received "@ + decimal(count as int)
                + " argument(s) but no argTypes were provided"@,
            Error::InvalidClass => "GObject has invalid type class (object may have been freed)"@,
            Error::NotNumeric { native } => "Expected a numeric FfiValue, got "@ + debug_native(
                native,
                table,
            ),
            Error::NotPointer { subject, native } => "Expected a pointer FfiValue for "@
                + subject.spec_text() + ", got "@ + debug_native(native, table),
            Error::NullToGlib => "Cannot convert Null/Undefined to glib::Value"@,
            Error::StorageMismatch => "Storage does not match the item type"@,
            Error::MalformedDescriptor { reason } => Self::malformed_text(reason),
        }
    }

    /// The message of a failure. A floating-point number in it has no
    /// digits: they are the embedding's to write, see
    /// [`Error::message_with`].
    pub fn message(self) -> (r: String)
        ensures
            r@ == self.text(Seq::empty()),
    {
        let table: Vec<(Real, String)> = Vec::new();
        self.message_with(&table)
    }

    /// The message of a failure, with the digits of floating-point
    /// numbers taken from a table.
    pub fn message_with(self, table: &Vec<(Real, String)>) -> (r: String)
        ensures
            r@ == self.text(table@),
    {
        match self {
            Error::TypeMismatch { expected, subject, actual, index } => {
                let mut text = String::from_str("Expected ");
                text.append(expected.text());
                text.append(" for ");
                text.append(subject.text());
                text.append(" type, got ");
                push_debug(&mut text, actual, table);
                push_position(&mut text, index);
                text
            },
            Error::GarbageCollected { subject, index } => {
                let mut text = String::from_str(
                    match subject {
                        Subject::GObject => "GObject",
                        Subject::Boxed => "Boxed object",
                        Subject::ObjectItem => "GObject in array",
                        Subject::Ref => "Ref object",
                        _ => "Object",
                    },
                );
                text.append(" has been garbage collected");
                push_position(&mut text, index);
                text
            },
            Error::UnsupportedType { operation } => String::from_str(
                match operation {
                    Operation::ArrayItem => "Unsupported array item type",
                    Operation::Encode => "Unsupported type for an argument",
                    Operation::Decode => "Unsupported type for a native value",
                    Operation::Read => "Unsupported field type for read",
                    Operation::Write => "Unsupported field type for write",
                    Operation::FromGlib => "Type should not appear in glib value conversion",
                    Operation::ToGlib => "Unsupported Value type for glib::Value conversion",
                },
            ),
            Error::InteriorNul { position, index } => {
                let mut text = String::from_str("nul byte found in provided data at position: ");
                push_decimal(&mut text, position as i128);
                push_position(&mut text, index);
                text
            },
            Error::UncopyableBoxed { ptr, name } => {
                let mut text = String::from_str("Cannot safely copy boxed type '");
                match name {
                    Some(n) => text.append(n),
                    None => text.append("unknown"),
                }
                text.append("': no size info or gtype. Pointer ");
                push_address(&mut text, ptr);
                text.append(" may become dangling if the source is freed");
                text
            },
            Error::NullPointer { operation } => match operation {
                Operation::Write => String::from_str("Cannot write field to null pointer"),
                _ => String::from_str("Cannot read field from null pointer"),
            },
            Error::OutOfBounds { offset, width } => String::from_str(
                "Field lies outside the object",
            ),
            Error::InvalidUtf8 => String::from_str("Native text is not valid UTF-8"),
            Error::GValueType { subject } => {
                let mut text = String::from_str("Failed to get ");
                text.append(subject.text());
                text.append(" from GValue");
                text
            },
            Error::MissingArgTypes { count } => {
                let mut text = String::from_str("Callback received ");
                push_decimal(&mut text, count as i128);
                text.append(" argument(s) but no argTypes were provided");
                text
            },
            Error::InvalidClass => String::from_str(
                "GObject has invalid type class (object may have been freed)",
            ),
            Error::NotNumeric { native } => {
                let mut text = String::from_str("Expected a numeric FfiValue, got ");
                push_debug_native(&mut text, native, table);
                text
            },
            Error::NotPointer { subject, native } => {
                let mut text = String::from_str("Expected a pointer FfiValue for ");
                text.append(subject.text());
                text.append(", got ");
                push_debug_native(&mut text, native, table);
                text
            },
            Error::NullToGlib => String::from_str("Cannot convert Null/Undefined to glib::Value"),
            Error::StorageMismatch => String::from_str("Storage does not match the item type"),
            Error::MalformedDescriptor { reason } => String::from_str(
                match reason {
                    Malformed::NotAnObject => "failed to downcast any to object",
                    Malformed::NotANumber => "failed to downcast any to number",
                    Malformed::NotABoolean => "failed to downcast any to boolean",
                    Malformed::NotAString => "failed to downcast any to string",
                    Malformed::NotAFunction => "failed to downcast any to function",
                    Malformed::InvalidIntegerSize => "Invalid integer size",
                    Malformed::InvalidFloatSize => "Invalid float size",
                },
            ),
        }
    }
}

/// Writes the position of an item, where there is one.
fn push_position(out: &mut String, index: Option<usize>)
    ensures
        final(out)@ == old(out)@ + Error::position_text(index),
{
    match index {
        Some(k) => {
            out.append(" at index ");
            push_decimal(out, k as i128);
            assert(out@ =~= old(out)@ + (" at index "@ + decimal(k as int)));
        },
        None => {
            assert(out@ =~= old(out)@ + Seq::<char>::empty());
        },
    }
}

} // verus!
