//! Native memory as bytes.
//!
//! The fields of a native structure are read and written through an image
//! of the structure's bytes. Integers lie in it in the byte order of the
//! machine, which the caller names, signed ones in two's complement.

use vstd::prelude::*;
use vstd::arithmetic::power2::{pow2, lemma2_to64, lemma2_to64_rest, lemma_pow2_adds, lemma_pow2_pos};

verus! {

/// The order in which the bytes of a number lie in memory.
#[derive(Debug, Clone, Copy, PartialEq, Eq, Structural)]
pub enum ByteOrder {
    /// Least significant byte first.
    Little,
    /// Most significant byte first.
    Big,
}

/// The number that bytes spell in the given order.
pub open spec fn value_of(bytes: Seq<u8>, order: ByteOrder) -> nat {
    match order {
        ByteOrder::Little => le_value(bytes),
        ByteOrder::Big => le_value(bytes.reverse()),
    }
}

/// The `width` low bytes of a number in the given order.
pub open spec fn bytes_of(value: nat, width: nat, order: ByteOrder) -> Seq<u8> {
    match order {
        ByteOrder::Little => le_bytes(value, width),
        ByteOrder::Big => le_bytes(value, width).reverse(),
    }
}

/// The number that bytes spell, least significant byte first.
pub open spec fn le_value(bytes: Seq<u8>) -> nat
    decreases bytes.len(),
{
    if bytes.len() == 0 {
        0
    } else {
        bytes[0] as nat + 256 * le_value(bytes.drop_first())
    }
}

/// The `width` low bytes of a number, least significant byte first.
pub open spec fn le_bytes(value: nat, width: nat) -> Seq<u8>
    decreases width,
{
    if width == 0 {
        Seq::empty()
    } else {
        seq![(value % 256) as u8] + le_bytes(value / 256, (width - 1) as nat)
    }
}

/// The bytes of a number are as many as were asked for.
pub proof fn lemma_le_bytes_len(value: nat, width: nat)
    ensures
        le_bytes(value, width).len() == width,
    decreases width,
{
    if width > 0 {
        lemma_le_bytes_len(value / 256, (width - 1) as nat);
    }
}

/// Bytes spell a number below 256 to the power of their count.
pub proof fn lemma_le_value_bound(bytes: Seq<u8>)
    ensures
        le_value(bytes) < pow2(8 * bytes.len()),
    decreases bytes.len(),
{
    lemma2_to64();
    if bytes.len() > 0 {
        lemma_le_value_bound(bytes.drop_first());
        lemma_pow2_adds(8, 8 * (bytes.len() - 1) as nat);
        let rest = le_value(bytes.drop_first());
        let p = pow2(8 * (bytes.len() - 1) as nat);
        assert(bytes[0] as nat + 256 * rest < 256 * p) by (nonlinear_arith)
            requires
                bytes[0] < 256,
                rest < p,
        ;
    }
}

/// A number that fits into `width` bytes comes back from its bytes.
pub proof fn lemma_le_value_of_bytes(value: nat, width: nat)
    requires
        value < pow2(8 * width),
    ensures
        le_value(le_bytes(value, width)) == value,
    decreases width,
{
    lemma2_to64();
    if width > 0 {
        let rest = (width - 1) as nat;
        lemma_pow2_adds(8, 8 * rest);
        let p = pow2(8 * rest);
        assert(value / 256 < p) by (nonlinear_arith)
            requires
                value < 256 * p,
        ;
        lemma_le_value_of_bytes(value / 256, rest);
        let bytes = le_bytes(value, width);
        assert(bytes.drop_first() =~= le_bytes(value / 256, rest));
        assert(value == (value % 256) + 256 * (value / 256)) by (nonlinear_arith);
    }
}

/// Bytes come back from the number that they spell.
pub proof fn lemma_le_bytes_of_value(bytes: Seq<u8>)
    ensures
        le_bytes(le_value(bytes), bytes.len()) == bytes,
    decreases bytes.len(),
{
    if bytes.len() > 0 {
        let rest = bytes.drop_first();
        lemma_le_bytes_of_value(rest);
        let v = le_value(bytes);
        let first = bytes[0] as nat;
        let r = le_value(rest);
        assert(v % 256 == first && v / 256 == r) by (nonlinear_arith)
            requires
                v == first + 256 * r,
                first < 256,
        ;
        assert(le_bytes(v, bytes.len()) =~= bytes);
    }
}

/// The bytes of a number are as many as were asked for, in either order.
pub proof fn lemma_bytes_of_len(value: nat, width: nat, order: ByteOrder)
    ensures
        bytes_of(value, width, order).len() == width,
{
    lemma_le_bytes_len(value, width);
}

/// Bytes spell a number below 256 to the power of their count, in either
/// order.
pub proof fn lemma_value_of_bound(bytes: Seq<u8>, order: ByteOrder)
    ensures
        value_of(bytes, order) < pow2(8 * bytes.len()),
{
    lemma_le_value_bound(bytes);
    lemma_le_value_bound(bytes.reverse());
}

/// A number that fits into `width` bytes comes back from its bytes, in
/// either order.
pub proof fn lemma_value_of_bytes(value: nat, width: nat, order: ByteOrder)
    requires
        value < pow2(8 * width),
    ensures
        value_of(bytes_of(value, width, order), order) == value,
{
    lemma_le_value_of_bytes(value, width);
    assert(le_bytes(value, width).reverse().reverse() =~= le_bytes(value, width));
}

/// The bytes `offset..offset + width` of `memory`.
pub open spec fn field(memory: Seq<u8>, offset: int, width: int) -> Seq<u8> {
    memory.subrange(offset, offset + width)
}

/// `memory` with the bytes from `offset` on replaced by `bytes`.
pub open spec fn with_field(memory: Seq<u8>, offset: int, bytes: Seq<u8>) -> Seq<u8> {
    memory.subrange(0, offset) + bytes + memory.subrange(
        offset + bytes.len(),
        memory.len() as int,
    )
}

/// A field that was written is there; the length of the memory is what it
/// was.
pub proof fn lemma_field_of_with_field(memory: Seq<u8>, offset: int, bytes: Seq<u8>)
    requires
        0 <= offset,
        offset + bytes.len() <= memory.len(),
    ensures
        with_field(memory, offset, bytes).len() == memory.len(),
        field(with_field(memory, offset, bytes), offset, bytes.len() as int) == bytes,
{
    assert(field(with_field(memory, offset, bytes), offset, bytes.len() as int) =~= bytes);
}

/// Reads the number that `width` bytes at `offset` spell in the given
/// order.
pub fn load(memory: &[u8], offset: usize, width: usize, order: ByteOrder) -> (r: u64)
    requires
        width <= 8,
        offset + width <= memory@.len(),
    ensures
        r == value_of(field(memory@, offset as int, width as int), order),
{
    let ghost bytes = field(memory@, offset as int, width as int);
    let len = memory.len();
    let mut acc: u64 = 0;
    match order {
        ByteOrder::Little => {
            let mut i: usize = width;
            proof {
                assert(bytes.subrange(width as int, width as int) =~= Seq::<u8>::empty());
            }
            while i > 0
                invariant
                    i <= width <= 8,
                    offset + width <= memory@.len() == len,
                    bytes == field(memory@, offset as int, width as int),
                    acc == le_value(bytes.subrange(i as int, width as int)),
                decreases i,
            {
                i -= 1;
                let byte = memory[offset + i];
                proof {
                    let tail = bytes.subrange(i as int, width as int);
                    assert(tail.drop_first() =~= bytes.subrange(i + 1, width as int));
                    assert(tail[0] == byte);
                    lemma_le_value_bound(tail);
                    lemma2_to64();
                    lemma2_to64_rest();
                    if tail.len() < 8 {
                        vstd::arithmetic::power2::lemma_pow2_strictly_increases(
                            8 * tail.len(),
                            64,
                        );
                    }
                }
                acc = acc * 256 + byte as u64;
            }
            proof {
                assert(bytes.subrange(0, width as int) =~= bytes);
            }
        },
        ByteOrder::Big => {
            let mut i: usize = 0;
            proof {
                assert(bytes.subrange(0, 0).reverse() =~= Seq::<u8>::empty());
            }
            while i < width
                invariant
                    i <= width <= 8,
                    offset + width <= memory@.len() == len,
                    bytes == field(memory@, offset as int, width as int),
                    acc == le_value(bytes.subrange(0, i as int).reverse()),
                decreases width - i,
            {
                let byte = memory[offset + i];
                proof {
                    let head = bytes.subrange(0, i + 1).reverse();
                    assert(head.drop_first() =~= bytes.subrange(0, i as int).reverse());
                    assert(head[0] == byte);
                    lemma_le_value_bound(head);
                    lemma2_to64();
                    lemma2_to64_rest();
                    if head.len() < 8 {
                        vstd::arithmetic::power2::lemma_pow2_strictly_increases(
                            8 * head.len(),
                            64,
                        );
                    }
                }
                acc = acc * 256 + byte as u64;
                i += 1;
            }
            proof {
                assert(bytes.subrange(0, width as int) =~= bytes);
            }
        },
    }
    acc
}

/// The `width` low bytes of a number in the given order.
pub fn to_bytes(value: u64, width: usize, order: ByteOrder) -> (r: Vec<u8>)
    requires
        width <= 8,
    ensures
        r@ == bytes_of(value as nat, width as nat, order),
{
    let mut out: Vec<u8> = Vec::new();
    let mut rest: u64 = value;
    let mut i: usize = 0;
    proof {
        assert(le_bytes(value as nat, width as nat) =~= out@ + le_bytes(
            rest as nat,
            (width - i) as nat,
        ));
    }
    while i < width
        invariant
            i <= width <= 8,
            out@.len() == i,
            le_bytes(value as nat, width as nat) == out@ + le_bytes(rest as nat, (width - i) as nat),
        decreases width - i,
    {
        let ghost before = out@;
        out.push((rest % 256) as u8);
        proof {
            assert(before + le_bytes(rest as nat, (width - i) as nat) =~= out@ + le_bytes(
                (rest / 256) as nat,
                (width - i - 1) as nat,
            ));
        }
        rest = rest / 256;
        i += 1;
    }
    proof {
        assert(out@ + le_bytes(rest as nat, 0) =~= out@);
    }
    match order {
        ByteOrder::Little => out,
        ByteOrder::Big => {
            let mut turned: Vec<u8> = Vec::new();
            let mut k: usize = 0;
            while k < width
                invariant
                    k <= width,
                    out@.len() == width,
                    turned@.len() == k,
                    forall|j: int| 0 <= j < k ==> turned@[j] == out@[width - 1 - j],
                decreases width - k,
            {
                turned.push(out[width - 1 - k]);
                k += 1;
            }
            proof {
                assert(turned@ =~= out@.reverse());
            }
            turned
        },
    }
}

/// Writes `bytes` into `memory` from `offset` on.
pub fn store(memory: &mut Vec<u8>, offset: usize, bytes: &Vec<u8>)
    requires
        offset + bytes@.len() <= old(memory)@.len(),
    ensures
        final(memory)@ == with_field(old(memory)@, offset as int, bytes@),
{
    let len = memory.len();
    let mut i: usize = 0;
    while i < bytes.len()
        invariant
            i <= bytes@.len(),
            offset + bytes@.len() <= memory@.len() == len,
            memory@.len() == old(memory)@.len(),
            memory@ == with_field(old(memory)@, offset as int, bytes@.subrange(0, i as int)),
        decreases bytes.len() - i,
    {
        let byte = bytes[i];
        memory.set(offset + i, byte);
        proof {
            assert(memory@ =~= with_field(
                old(memory)@,
                offset as int,
                bytes@.subrange(0, i + 1),
            ));
        }
        i += 1;
    }
    proof {
        assert(bytes@.subrange(0, bytes@.len() as int) =~= bytes@);
    }
}

} // verus!
