//! NUL-terminated text, and the first position at which something holds.

use vstd::prelude::*;
use vstd::string::*;
use vstd::utf8::{decode_utf8, encode_utf8, valid_utf8, encode_utf8_valid_utf8, encode_utf8_decode_utf8};
use crate::error::Error;

verus! {

/// The first position from `from` up to, not including, `to` at which
/// `bad` holds; `to` if there is none.
pub open spec fn first_index(bad: spec_fn(int) -> bool, from: int, to: int) -> int
    decreases to - from,
{
    if from >= to {
        to
    } else if bad(from) {
        from
    } else {
        first_index(bad, from + 1, to)
    }
}

/// A position before which `bad` holds nowhere, and at which it holds
/// unless the position is the end, is the first.
pub proof fn lemma_first_index(bad: spec_fn(int) -> bool, from: int, to: int, k: int)
    requires
        from <= k <= to,
        forall|j: int| from <= j < k ==> !#[trigger] bad(j),
        k < to ==> bad(k),
    ensures
        first_index(bad, from, to) == k,
    decreases k - from,
{
    if from < k {
        lemma_first_index(bad, from + 1, to, k);
    }
}

/// The first position is within bounds; `bad` holds at it unless it is
/// the end, and nowhere before it.
pub proof fn lemma_first_index_is_first(bad: spec_fn(int) -> bool, from: int, to: int)
    requires
        from <= to,
    ensures
        from <= first_index(bad, from, to) <= to,
        first_index(bad, from, to) < to ==> bad(first_index(bad, from, to)),
        forall|j: int| from <= j < first_index(bad, from, to) ==> !#[trigger] bad(j),
    decreases to - from,
{
    if from < to && !bad(from) {
        lemma_first_index_is_first(bad, from + 1, to);
    }
}

/// Whether position `i` of `bytes` holds a NUL byte.
pub open spec fn is_nul(bytes: Seq<u8>) -> spec_fn(int) -> bool {
    |i: int| bytes[i] == 0
}

/// The position of the first NUL byte; the length if there is none.
pub open spec fn nul_position(bytes: Seq<u8>) -> int {
    first_index(is_nul(bytes), 0, bytes.len() as int)
}

/// Text as a NUL-terminated string: its UTF-8 bytes and a closing NUL
/// byte. Text that holds a NUL byte itself has no such form; the position
/// of its first NUL byte is given instead.
pub open spec fn c_string(text: Seq<char>) -> Result<Seq<u8>, int> {
    let bytes = encode_utf8(text);
    if nul_position(bytes) < bytes.len() {
        Err(nul_position(bytes))
    } else {
        Ok(bytes.push(0))
    }
}

/// The text of a NUL-terminated string: what its bytes before the first
/// NUL byte spell, if they are valid UTF-8. Bytes without a NUL byte are
/// read to their end.
pub open spec fn c_text(bytes: Seq<u8>) -> Option<Seq<char>> {
    let body = bytes.subrange(0, nul_position(bytes));
    if valid_utf8(body) {
        Some(decode_utf8(body))
    } else {
        None
    }
}

/// Makes the NUL-terminated form of a text.
pub fn to_c_string(text: &str) -> (r: Result<Vec<u8>, usize>)
    ensures
        c_string(text@) matches Ok(bytes) ==> r matches Ok(v) && v@ == bytes,
        c_string(text@) matches Err(position) ==> r == Err::<Vec<u8>, usize>(position as usize)
            && position == position as usize,
{
    let bytes = text.as_bytes();
    let n = bytes.len();
    let mut i: usize = 0;
    while i < n
        invariant
            i <= n,
            n == bytes@.len(),
            bytes@ == encode_utf8(text@),
            forall|j: int| 0 <= j < i ==> !#[trigger] is_nul(bytes@)(j),
        decreases n - i,
    {
        if bytes[i] == 0 {
            proof {
                lemma_first_index(is_nul(bytes@), 0, n as int, i as int);
            }
            return Err(i);
        }
        i += 1;
    }
    proof {
        lemma_first_index(is_nul(bytes@), 0, n as int, n as int);
    }
    let mut out = text.as_bytes_vec();
    out.push(0);
    Ok(out)
}

/// Calls `String::from_utf8`, which gives the string that the bytes
/// spell where they are valid UTF-8, and fails otherwise.
#[verifier::external_body]
fn string_from_utf8(bytes: Vec<u8>) -> (r: Option<String>)
    ensures
        r is Some == valid_utf8(bytes@),
        r matches Some(s) ==> s@ == decode_utf8(bytes@),
{
    String::from_utf8(bytes).ok()
}

/// Reads the text of a NUL-terminated string.
pub fn from_c_string(bytes: &[u8]) -> (r: Result<String, Error<'static>>)
    ensures
        c_text(bytes@) matches Some(text) ==> r matches Ok(s) && s@ == text,
        c_text(bytes@) is None ==> r == Err::<String, Error<'static>>(Error::InvalidUtf8),
{
    let n = bytes.len();
    let mut body: Vec<u8> = Vec::new();
    let mut i: usize = 0;
    while i < n && bytes[i] != 0
        invariant
            i <= n,
            n == bytes@.len(),
            forall|j: int| 0 <= j < i ==> !#[trigger] is_nul(bytes@)(j),
            body@ == bytes@.subrange(0, i as int),
        decreases n - i,
    {
        body.push(bytes[i]);
        assert(body@ == bytes@.subrange(0, i + 1));
        i += 1;
    }
    proof {
        lemma_first_index(is_nul(bytes@), 0, n as int, i as int);
    }
    match string_from_utf8(body) {
        Some(s) => Ok(s),
        None => Err(Error::InvalidUtf8),
    }
}

/// Text without a NUL byte reads back from its NUL-terminated form
/// unchanged.
pub proof fn lemma_c_string_round_trip(text: Seq<char>)
    ensures
        c_string(text) matches Ok(bytes) ==> c_text(bytes) == Some(text),
{
    let bytes = encode_utf8(text);
    lemma_first_index_is_first(is_nul(bytes), 0, bytes.len() as int);
    if c_string(text) is Ok {
        let whole = bytes.push(0);
        assert forall|j: int| 0 <= j < bytes.len() implies !#[trigger] is_nul(whole)(j) by {
            assert(whole[j] == bytes[j]);
            assert(!is_nul(bytes)(j));
        }
        lemma_first_index(is_nul(whole), 0, whole.len() as int, bytes.len() as int);
        assert(whole.subrange(0, bytes.len() as int) =~= bytes);
        encode_utf8_valid_utf8(text);
        encode_utf8_decode_utf8(text);
    }
}

/// Text with a NUL byte has no NUL-terminated form.
pub proof fn lemma_c_string_refuses_nul(text: Seq<char>)
    ensures
        c_string(text) is Err <==> encode_utf8(text).contains(0),
{
    let bytes = encode_utf8(text);
    lemma_first_index_is_first(is_nul(bytes), 0, bytes.len() as int);
    if bytes.contains(0) {
        let j = choose|j: int| 0 <= j < bytes.len() && bytes[j] == 0;
        assert(is_nul(bytes)(j));
    }
}

} // verus!
