//! Descriptors of boxed values: native value types with copy and free
//! semantics, known to the object system by name.

use vstd::prelude::*;
use vstd::string::*;
use crate::error::{Error, Malformed};
use crate::js_ext::{boolean_or, get_boolean_or, get_string_or_none, string_or_none, JsValue};
use crate::render::push_char;
use crate::types::GType;

verus! {

/// Descriptor of a boxed value.
#[derive(Debug, Clone, PartialEq, Eq)]
pub struct BoxedType {
    pub is_borrowed: bool,
    pub type_: String,
    pub lib: Option<String>,
    pub get_type_fn: Option<String>,
}

/// What is left to do to learn the identifier of a boxed type.
#[derive(Debug, Clone, PartialEq, Eq)]
pub enum GTypeLookup {
    /// The object system knows the type under its name.
    Registered(GType),
    /// The named library has to be loaded and the named function called;
    /// the function returns the identifier.
    Load { library: String, symbol: String },
    /// The type is not registered and no library is named: the type has
    /// no stable identity.
    Unavailable,
}

/// What `char::is_uppercase` returns: whether the character has the
/// Unicode property Uppercase.
pub uninterp spec fn is_uppercase(c: char) -> bool;

/// Calls `char::is_uppercase`. Of the ASCII characters the capital
/// letters are uppercase and no others.
#[verifier::external_body]
fn char_is_uppercase(c: char) -> (r: bool)
    ensures
        r == is_uppercase(c),
        c <= '\u{7f}' ==> r == ('A' <= c <= 'Z'),
{
    c.is_uppercase()
}

/// `c` with the ASCII capitals mapped to their small letters.
pub open spec fn ascii_lowercase(c: char) -> char {
    if 'A' <= c <= 'Z' {
        ((c as u8) + 32) as char
    } else {
        c
    }
}

fn to_ascii_lowercase(c: char) -> (r: char)
    ensures
        r == ascii_lowercase(c),
{
    if 'A' <= c && c <= 'Z' {
        let b: u8 = c as u8;
        (b + 32) as char
    } else {
        c
    }
}

/// The text that position `i` of a type name contributes to the derived
/// function name: an uppercase character gives its ASCII small letter,
/// after an underscore unless it stands first; any other character gives
/// itself.
pub open spec fn snake_piece(name: Seq<char>, i: int) -> Seq<char> {
    let c = name[i];
    if is_uppercase(c) {
        if i > 0 {
            seq!['_', ascii_lowercase(c)]
        } else {
            seq![ascii_lowercase(c)]
        }
    } else {
        seq![c]
    }
}

/// The first `n` characters of a type name in snake case.
pub open spec fn snake_case(name: Seq<char>, n: nat) -> Seq<char>
    decreases n,
{
    if n == 0 {
        Seq::empty()
    } else {
        snake_case(name, (n - 1) as nat) + snake_piece(name, n - 1)
    }
}

/// The name of the function that returns the identifier of the type
/// `name`, as convention derives it: the name in snake case, then
/// `_get_type`.
pub open spec fn get_type_fn_name(name: Seq<char>) -> Seq<char> {
    snake_case(name, name.len()) + "_get_type"@
}

/// Whether the characters of a name that are ASCII are uppercase exactly
/// where they are capital letters.
pub open spec fn ascii_capitals_are_uppercase(name: Seq<char>, n: int) -> bool {
    forall|i: int|
        0 <= i < n && name[i] <= '\u{7f}' ==> #[trigger] is_uppercase(name[i]) == ('A' <= name[i]
            <= 'Z')
}

/// Derives the name of the function that returns a type's identifier. On
/// the ASCII characters of the name, uppercase means a capital letter.
pub fn type_name_to_get_type_fn(name: &str) -> (r: String)
    ensures
        r@ == get_type_fn_name(name@),
        ascii_capitals_are_uppercase(name@, name@.len() as int),
{
    let mut result = String::new();
    let n = name.unicode_len();
    let mut i: usize = 0;
    while i < n
        invariant
            n == name@.len(),
            i <= n,
            result@ == snake_case(name@, i as nat),
            ascii_capitals_are_uppercase(name@, i as int),
        decreases n - i,
    {
        let c = name.get_char(i);
        if char_is_uppercase(c) {
            if i > 0 {
                push_char(&mut result, '_');
            }
            push_char(&mut result, to_ascii_lowercase(c));
        } else {
            push_char(&mut result, c);
        }
        assert(result@ == snake_case(name@, i as nat) + snake_piece(name@, i as int));
        i += 1;
    }
    result.append("_get_type");
    result
}

impl BoxedType {
    pub fn new(
        is_borrowed: bool,
        type_: String,
        lib: Option<String>,
        get_type_fn: Option<String>,
    ) -> (r: Self)
        ensures
            r.is_borrowed == is_borrowed,
            r.type_ == type_,
            r.lib == lib,
            r.get_type_fn == get_type_fn,
    {
        BoxedType { is_borrowed, type_, lib, get_type_fn }
    }

    /// Whether `r` is what a scripting value reads as: an object whose
    /// property `innerType` is the type's name, a string; whose property
    /// `borrowed` says whether the value stays the callee's; and whose
    /// properties `lib` and `getTypeFn`, where they are strings, name the
    /// library and the function that returns the type's identifier.
    pub open spec fn reads(value: JsValue, r: Result<BoxedType, Error<'static>>) -> bool {
        match value {
            JsValue::Object(object) => match object.find("innerType"@) {
                Some(JsValue::String(name)) => r matches Ok(t) && t.type_@ == name@
                    && t.is_borrowed == boolean_or(&object, "borrowed"@, false) && (match t.lib {
                    Some(s) => Some(s@),
                    None => None,
                }) == string_or_none(&object, "lib"@) && (match t.get_type_fn {
                    Some(s) => Some(s@),
                    None => None,
                }) == string_or_none(&object, "getTypeFn"@),
                _ => r == Err::<BoxedType, Error<'static>>(
                    Error::MalformedDescriptor { reason: Malformed::NotAString },
                ),
            },
            _ => r == Err::<BoxedType, Error<'static>>(
                Error::MalformedDescriptor { reason: Malformed::NotAnObject },
            ),
        }
    }

    /// Reads the descriptor from a scripting value.
    pub fn from_js_value(value: &JsValue) -> (r: Result<Self, Error<'static>>)
        ensures
            Self::reads(*value, r),
    {
        let obj = value.as_object()?;
        let is_borrowed = get_boolean_or(obj, "borrowed", false);
        let type_ = match obj.prop("innerType") {
            Some(JsValue::String(name)) => name.clone(),
            _ => return Err(Error::MalformedDescriptor { reason: Malformed::NotAString }),
        };
        let lib = get_string_or_none(obj, "lib");
        let get_type_fn = get_string_or_none(obj, "getTypeFn");
        Ok(Self::new(is_borrowed, type_, lib, get_type_fn))
    }

    /// The function that returns this type's identifier: the one the
    /// descriptor names, else the one derived from the type's name.
    pub open spec fn symbol(self) -> Seq<char> {
        match self.get_type_fn {
            Some(name) => name@,
            None => get_type_fn_name(self.type_@),
        }
    }

    /// How this type's identifier is to be had, given what the object
    /// system has registered under the type's name.
    pub open spec fn lookup(self, registered: Option<GType>) -> GTypeLookupView {
        match registered {
            Some(gtype) => GTypeLookupView::Registered(gtype),
            None => match self.lib {
                Some(library) => GTypeLookupView::Load { library: library@, symbol: self.symbol() },
                None => GTypeLookupView::Unavailable,
            },
        }
    }

    /// Decides how this type's identifier is to be had. `registered` is
    /// what the object system has under the type's name. A caller that is
    /// told to load and cannot treats the type as one without identity.
    pub fn get_gtype(&self, registered: Option<GType>) -> (r: GTypeLookup)
        ensures
            r@ == self.lookup(registered),
    {
        if let Some(gtype) = registered {
            return GTypeLookup::Registered(gtype);
        }
        match &self.lib {
            None => GTypeLookup::Unavailable,
            Some(library) => {
                let symbol = match &self.get_type_fn {
                    Some(name) => name.clone(),
                    None => type_name_to_get_type_fn(self.type_.as_str()),
                };
                GTypeLookup::Load { library: library.clone(), symbol }
            },
        }
    }
}

/// The mathematical content of a [`GTypeLookup`].
pub enum GTypeLookupView {
    Registered(GType),
    Load { library: Seq<char>, symbol: Seq<char> },
    Unavailable,
}

impl View for GTypeLookup {
    type V = GTypeLookupView;

    open spec fn view(&self) -> GTypeLookupView {
        match self {
            GTypeLookup::Registered(gtype) => GTypeLookupView::Registered(*gtype),
            GTypeLookup::Load { library, symbol } => GTypeLookupView::Load {
                library: library@,
                symbol: symbol@,
            },
            GTypeLookup::Unavailable => GTypeLookupView::Unavailable,
        }
    }
}

} // verus!
