//! Writing values out for messages.
//!
//! A failure names the value that it refused, in the form in which a
//! debugger would show it. Everything of that form is written here but
//! the digits of floating-point numbers, which only the embedding can
//! write: it hands them in as a table, and a number without an entry is
//! written without digits.

use vstd::prelude::*;
use vstd::string::*;
use crate::number::{Double, Single};
use crate::text::{first_index, lemma_first_index};
use crate::value::Value;

verus! {

/// Calls `String::push`, which appends one character.
#[verifier::external_body]
pub(crate) fn push_char(s: &mut String, c: char)
    ensures
        final(s)@ == old(s)@.push(c),
{
    s.push(c)
}

/// What formatting a string with `{:?}` gives: the text between double
/// quotes, with quotes, backslashes and characters that do not print
/// escaped.
pub uninterp spec fn quoted(text: Seq<char>) -> Seq<char>;

/// Formats a string with `{:?}`, by `<str as Debug>::fmt`.
#[verifier::external_body]
fn quote(text: &str) -> (r: String)
    ensures
        r@ == quoted(text@),
{
    format!("{:?}", text)
}

/// A floating-point number of either width.
#[derive(Debug, Clone, Copy, PartialEq, Eq, Structural)]
pub enum Real {
    Double(Double),
    Single(Single),
}

/// A native value as far as a message shows it: a primitive with what it
/// holds, a pointer with its address, an owned pointer, a callback or
/// nothing.
#[derive(Debug, Clone, Copy, PartialEq, Eq, Structural)]
pub enum Native {
    U8(u8),
    I8(i8),
    U16(u16),
    I16(i16),
    U32(u32),
    I32(i32),
    U64(u64),
    I64(i64),
    F32(Single),
    F64(Double),
    Ptr(usize),
    OwnedPtr,
    TrampolineCallback,
    Void,
}

/// The character of a digit below sixteen.
pub open spec fn digit(d: nat) -> char {
    if d < 10 {
        (48 + d) as char
    } else {
        (87 + d) as char
    }
}

/// A natural number in base sixteen or, for any other base asked for,
/// ten, without leading zeros.
pub open spec fn numeral(n: nat, base: nat) -> Seq<char>
    decreases n,
{
    if base == 16 {
        if n < 16 {
            seq![digit(n)]
        } else {
            numeral(n / 16, base).push(digit(n % 16))
        }
    } else {
        if n < 10 {
            seq![digit(n)]
        } else {
            numeral(n / 10, base).push(digit(n % 10))
        }
    }
}

/// An integer in decimal, with a minus sign if it is negative.
pub open spec fn decimal(v: int) -> Seq<char> {
    if v < 0 {
        seq!['-'] + numeral((-v) as nat, 10)
    } else {
        numeral(v as nat, 10)
    }
}

/// An address as a debugger shows it: in hexadecimal after `0x`.
pub open spec fn address(ptr: usize) -> Seq<char> {
    "0x"@ + numeral(ptr as nat, 16)
}

/// Whether entry `i` of a table of digits is the entry of `number`.
pub open spec fn is_entry_of(table: Seq<(Real, String)>, number: Real) -> spec_fn(int) -> bool {
    |i: int| table[i].0 == number
}

/// The digits of a number by a table: those of its first entry, none
/// where it has no entry.
pub open spec fn digits(table: Seq<(Real, String)>, number: Real) -> Seq<char> {
    let k = first_index(is_entry_of(table, number), 0, table.len() as int);
    if k < table.len() {
        table[k].1@
    } else {
        Seq::empty()
    }
}

/// The debug form of a scripting value.
pub open spec fn debug(value: Value, table: Seq<(Real, String)>) -> Seq<char>
    decreases value,
{
    match value {
        Value::Number(n) => "Number("@ + digits(table, Real::Double(n)) + ")"@,
        Value::String(s) => "String("@ + quoted(s@) + ")"@,
        Value::Boolean(b) => if b {
            "Boolean(true)"@
        } else {
            "Boolean(false)"@
        },
        Value::Object(id) => "Object(ObjectId("@ + decimal(id.id as int) + "))"@,
        Value::Null => "Null"@,
        Value::Undefined => "Undefined"@,
        Value::Array(items) => "Array(["@ + debug_items(items@, table) + "])"@,
        Value::Callback(callback) => "Callback(Callback { js_func: "@ + decimal(
            callback.js_func as int,
        ) + ", channel: "@ + decimal(callback.channel as int) + " })"@,
        Value::Ref(reference) => "Ref(Ref { value: "@ + debug(*reference.value, table)
            + ", js_obj: "@ + decimal(reference.js_obj as int) + " })"@,
    }
}

/// The debug forms of the items of a list, a comma and a blank between
/// them.
pub open spec fn debug_items(items: Seq<Value>, table: Seq<(Real, String)>) -> Seq<char>
    decreases items,
{
    if items.len() == 0 {
        Seq::empty()
    } else if items.len() == 1 {
        debug(items.last(), table)
    } else {
        debug_items(items.drop_last(), table) + ", "@ + debug(items.last(), table)
    }
}

/// The debug form of a native value.
pub open spec fn debug_native(value: Native, table: Seq<(Real, String)>) -> Seq<char> {
    match value {
        Native::U8(v) => "U8("@ + decimal(v as int) + ")"@,
        Native::I8(v) => "I8("@ + decimal(v as int) + ")"@,
        Native::U16(v) => "U16("@ + decimal(v as int) + ")"@,
        Native::I16(v) => "I16("@ + decimal(v as int) + ")"@,
        Native::U32(v) => "U32("@ + decimal(v as int) + ")"@,
        Native::I32(v) => "I32("@ + decimal(v as int) + ")"@,
        Native::U64(v) => "U64("@ + decimal(v as int) + ")"@,
        Native::I64(v) => "I64("@ + decimal(v as int) + ")"@,
        Native::F32(v) => "F32("@ + digits(table, Real::Single(v)) + ")"@,
        Native::F64(v) => "F64("@ + digits(table, Real::Double(v)) + ")"@,
        Native::Ptr(p) => "Ptr("@ + address(p) + ")"@,
        Native::OwnedPtr => "OwnedPtr(..)"@,
        Native::TrampolineCallback => "TrampolineCallback(..)"@,
        Native::Void => "Void"@,
    }
}

/// Writes a natural number in base ten or sixteen.
pub fn push_numeral(out: &mut String, n: u64, base: u64)
    requires
        base == 10 || base == 16,
    ensures
        final(out)@ == old(out)@ + numeral(n as nat, base as nat),
    decreases n,
{
    let d = if base == 16 {
        if n >= 16 {
            push_numeral(out, n / 16, base);
        }
        n % 16
    } else {
        if n >= 10 {
            push_numeral(out, n / 10, base);
        }
        n % 10
    };
    let c: u8 = if d < 10 {
        (48 + d) as u8
    } else {
        (87 + d) as u8
    };
    push_char(out, c as char);
    proof {
        if n >= base {
            assert(out@ =~= old(out)@ + numeral((n / base) as nat, base as nat).push(
                digit((n % base) as nat),
            ));
        } else {
            assert(out@ =~= old(out)@ + seq![digit(n as nat)]);
        }
    }
}

/// Writes an integer in decimal.
pub fn push_decimal(out: &mut String, v: i128)
    requires
        -0x8000_0000_0000_0000 <= v <= 0xffff_ffff_ffff_ffff,
    ensures
        final(out)@ == old(out)@ + decimal(v as int),
{
    if v < 0 {
        push_char(out, '-');
        push_numeral(out, (-v) as u64, 10);
        assert(out@ =~= old(out)@ + (seq!['-'] + numeral((-v) as nat, 10)));
    } else {
        push_numeral(out, v as u64, 10);
    }
}

/// Writes an address.
pub fn push_address(out: &mut String, ptr: usize)
    ensures
        final(out)@ == old(out)@ + address(ptr),
{
    out.append("0x");
    push_numeral(out, ptr as u64, 16);
    assert(out@ =~= old(out)@ + ("0x"@ + numeral(ptr as nat, 16)));
}

/// Writes the digits of a number by a table.
pub fn push_digits(out: &mut String, table: &Vec<(Real, String)>, number: Real)
    ensures
        final(out)@ == old(out)@ + digits(table@, number),
{
    let mut i: usize = 0;
    while i < table.len()
        invariant
            i <= table@.len(),
            out@ == old(out)@,
            forall|j: int| 0 <= j < i ==> !#[trigger] is_entry_of(table@, number)(j),
        decreases table.len() - i,
    {
        if table[i].0 == number {
            proof {
                lemma_first_index(is_entry_of(table@, number), 0, table@.len() as int, i as int);
            }
            out.append(table[i].1.as_str());
            return ;
        }
        i += 1;
    }
    proof {
        lemma_first_index(
            is_entry_of(table@, number),
            0,
            table@.len() as int,
            table@.len() as int,
        );
        assert(out@ =~= old(out)@ + Seq::<char>::empty());
    }
}

/// Writes the debug form of a scripting value.
pub fn push_debug(out: &mut String, value: &Value, table: &Vec<(Real, String)>)
    ensures
        final(out)@ == old(out)@ + debug(*value, table@),
    decreases value,
{
    match value {
        Value::Number(n) => {
            out.append("Number(");
            push_digits(out, table, Real::Double(*n));
            out.append(")");
            assert(out@ =~= old(out)@ + ("Number("@ + digits(table@, Real::Double(*n)) + ")"@));
        },
        Value::String(s) => {
            out.append("String(");
            let shown = quote(s.as_str());
            out.append(shown.as_str());
            out.append(")");
            assert(out@ =~= old(out)@ + ("String("@ + quoted(s@) + ")"@));
        },
        Value::Boolean(b) => {
            if *b {
                out.append("Boolean(true)");
            } else {
                out.append("Boolean(false)");
            }
        },
        Value::Object(id) => {
            out.append("Object(ObjectId(");
            push_decimal(out, id.id as i128);
            out.append("))");
            assert(out@ =~= old(out)@ + ("Object(ObjectId("@ + decimal(id.id as int) + "))"@));
        },
        Value::Null => out.append("Null"),
        Value::Undefined => out.append("Undefined"),
        Value::Array(items) => {
            out.append("Array([");
            push_debug_items(out, items, table);
            out.append("])");
            assert(out@ =~= old(out)@ + ("Array(["@ + debug_items(items@, table@) + "])"@));
        },
        Value::Callback(callback) => {
            out.append("Callback(Callback { js_func: ");
            push_decimal(out, callback.js_func as i128);
            out.append(", channel: ");
            push_decimal(out, callback.channel as i128);
            out.append(" })");
            assert(out@ =~= old(out)@ + ("Callback(Callback { js_func: "@ + decimal(
                callback.js_func as int,
            ) + ", channel: "@ + decimal(callback.channel as int) + " })"@));
        },
        Value::Ref(reference) => {
            out.append("Ref(Ref { value: ");
            push_debug(out, &*reference.value, table);
            out.append(", js_obj: ");
            push_decimal(out, reference.js_obj as i128);
            out.append(" })");
            assert(out@ =~= old(out)@ + ("Ref(Ref { value: "@ + debug(*reference.value, table@)
                + ", js_obj: "@ + decimal(reference.js_obj as int) + " })"@));
        },
    }
}

/// Writes the debug forms of the items of a list.
fn push_debug_items(out: &mut String, items: &Vec<Value>, table: &Vec<(Real, String)>)
    ensures
        final(out)@ == old(out)@ + debug_items(items@, table@),
    decreases items,
{
    let mut i: usize = 0;
    proof {
        assert(items@.subrange(0, 0) =~= Seq::<Value>::empty());
        assert(out@ =~= old(out)@ + debug_items(items@.subrange(0, 0), table@));
    }
    while i < items.len()
        invariant
            i <= items@.len(),
            out@ == old(out)@ + debug_items(items@.subrange(0, i as int), table@),
        decreases items.len() - i,
    {
        if i > 0 {
            out.append(", ");
        }
        push_debug(out, &items[i], table);
        proof {
            let prefix = items@.subrange(0, i + 1);
            assert(prefix.drop_last() =~= items@.subrange(0, i as int));
            assert(prefix.last() == items@[i as int]);
            if i > 0 {
                assert(out@ =~= old(out)@ + (debug_items(items@.subrange(0, i as int), table@)
                    + ", "@ + debug(items@[i as int], table@)));
            } else {
                assert(out@ =~= old(out)@ + debug(items@[i as int], table@));
            }
        }
        i += 1;
    }
    proof {
        assert(items@.subrange(0, items@.len() as int) =~= items@);
    }
}

/// Writes the debug form of a native value.
pub fn push_debug_native(out: &mut String, value: Native, table: &Vec<(Real, String)>)
    ensures
        final(out)@ == old(out)@ + debug_native(value, table@),
{
    match value {
        Native::U8(v) => {
            out.append("U8(");
            push_decimal(out, v as i128);
            out.append(")");
            assert(out@ =~= old(out)@ + ("U8("@ + decimal(v as int) + ")"@));
        },
        Native::I8(v) => {
            out.append("I8(");
            push_decimal(out, v as i128);
            out.append(")");
            assert(out@ =~= old(out)@ + ("I8("@ + decimal(v as int) + ")"@));
        },
        Native::U16(v) => {
            out.append("U16(");
            push_decimal(out, v as i128);
            out.append(")");
            assert(out@ =~= old(out)@ + ("U16("@ + decimal(v as int) + ")"@));
        },
        Native::I16(v) => {
            out.append("I16(");
            push_decimal(out, v as i128);
            out.append(")");
            assert(out@ =~= old(out)@ + ("I16("@ + decimal(v as int) + ")"@));
        },
        Native::U32(v) => {
            out.append("U32(");
            push_decimal(out, v as i128);
            out.append(")");
            assert(out@ =~= old(out)@ + ("U32("@ + decimal(v as int) + ")"@));
        },
        Native::I32(v) => {
            out.append("I32(");
            push_decimal(out, v as i128);
            out.append(")");
            assert(out@ =~= old(out)@ + ("I32("@ + decimal(v as int) + ")"@));
        },
        Native::U64(v) => {
            out.append("U64(");
            push_decimal(out, v as i128);
            out.append(")");
            assert(out@ =~= old(out)@ + ("U64("@ + decimal(v as int) + ")"@));
        },
        Native::I64(v) => {
            out.append("I64(");
            push_decimal(out, v as i128);
            out.append(")");
            assert(out@ =~= old(out)@ + ("I64("@ + decimal(v as int) + ")"@));
        },
        Native::F32(v) => {
            out.append("F32(");
            push_digits(out, table, Real::Single(v));
            out.append(")");
            assert(out@ =~= old(out)@ + ("F32("@ + digits(table@, Real::Single(v)) + ")"@));
        },
        Native::F64(v) => {
            out.append("F64(");
            push_digits(out, table, Real::Double(v));
            out.append(")");
            assert(out@ =~= old(out)@ + ("F64("@ + digits(table@, Real::Double(v)) + ")"@));
        },
        Native::Ptr(p) => {
            out.append("Ptr(");
            push_address(out, p);
            out.append(")");
            assert(out@ =~= old(out)@ + ("Ptr("@ + address(p) + ")"@));
        },
        Native::OwnedPtr => out.append("OwnedPtr(..)"),
        Native::TrampolineCallback => out.append("TrampolineCallback(..)"),
        Native::Void => out.append("Void"),
    }
}

} // verus!
