//! Laws of the buffer: properties that relate several operations, stated
//! over the same spec functions the operations' contracts use and proved
//! once and for all.

use crate::buffer::{clear_transition, grown_capacity, spec_max_capacity, written, ByteBuf};
use crate::codec::{
    dec_bool, dec_i16_be, dec_i16_le, dec_u16_be, dec_u16_le, dec_u24_be, enc16_hi, enc16_lo,
    enc24_hi, enc24_lo, enc24_mid, enc_bool, enc_byte, lemma_boolean_round_trip,
    lemma_byte_round_trip, lemma_medium_round_trip, lemma_short_be_round_trip,
    lemma_short_le_round_trip, lemma_unsigned_byte_round_trip, lemma_unsigned_short_be_round_trip,
    lemma_unsigned_short_le_round_trip, sign_extend8,
};
use vstd::prelude::*;

verus! {

/// Law: the cursor invariant. The cursors are ordered within the capacity,
/// the readable window spans `write_position - read_position` bytes, and the
/// writable window spans the rest of the store — zero on a read-only buffer.
pub proof fn lemma_cursor_invariant(b: ByteBuf)
    requires
        b.wf(),
    ensures
        0 <= b.rpos() <= b.wpos() <= b.cap(),
        b.readable() == b.wpos() - b.rpos(),
        b.readable() >= 0,
        !b.ro() ==> b.writable() == b.cap() - b.wpos(),
        b.ro() ==> b.writable() == 0,
        b.readable_window().len() == b.readable(),
{
}

/// Law: `clear` is idempotent. Clearing twice ends in the same observable
/// state as clearing once, and after a clear nothing is readable.
pub proof fn lemma_clear_idempotent(a: ByteBuf, b: ByteBuf, c: ByteBuf)
    requires
        clear_transition(a, b),
        clear_transition(b, c),
    ensures
        c.bytes() == b.bytes(),
        c.rpos() == b.rpos(),
        c.wpos() == b.wpos(),
        c.ro() == b.ro(),
        b.readable() == 0,
{
}

/// Law: growing for an append always reaches the needed capacity, never
/// shrinks the store, and stays within the largest capacity.
pub proof fn lemma_grown_capacity_fits(cap: int, needed: int)
    requires
        0 <= cap <= spec_max_capacity(),
        0 <= needed <= spec_max_capacity(),
    ensures
        needed <= grown_capacity(cap, needed),
        cap <= grown_capacity(cap, needed),
        grown_capacity(cap, needed) <= spec_max_capacity(),
{
}

/// Law: a write, even one that grows the store, preserves every byte below
/// the write cursor — in particular the whole readable window — and every
/// other old byte outside the newly written span; slots newly exposed by
/// growth are zero-filled.
pub proof fn lemma_write_preserves_read_bytes(pre: Seq<u8>, w: int, data: Seq<u8>, newcap: int)
    requires
        0 <= w <= pre.len(),
        pre.len() <= newcap,
        w + data.len() <= newcap,
    ensures
        written(pre, w, data, newcap).len() == newcap,
        forall|i: int| 0 <= i < w ==> written(pre, w, data, newcap)[i] == pre[i],
        forall|i: int|
            w <= i < w + data.len() ==> written(pre, w, data, newcap)[i] == data[i - w],
        forall|i: int|
            w + data.len() <= i < pre.len() ==> written(pre, w, data, newcap)[i] == pre[i],
        forall|i: int|
            pre.len() <= i < newcap && !(w <= i < w + data.len()) ==> written(
                pre,
                w,
                data,
                newcap,
            )[i] == 0,
{
}

/// Law: round trip through the store for booleans — the byte a boolean
/// write places at the write cursor decodes back to the same boolean.
pub proof fn lemma_store_boolean_round_trip(pre: Seq<u8>, w: int, newcap: int, v: bool)
    requires
        0 <= w,
        w + 1 <= newcap,
    ensures
        dec_bool(written(pre, w, seq![enc_bool(v)], newcap)[w]) == v,
{
    lemma_boolean_round_trip(v);
}

/// Law: round trip through the store for signed bytes, for every
/// representable value `-0x80 <= v <= 0x7F`.
pub proof fn lemma_store_byte_round_trip(pre: Seq<u8>, w: int, newcap: int, v: i32)
    requires
        0 <= w,
        w + 1 <= newcap,
        -0x80 <= v <= 0x7F,
    ensures
        sign_extend8(written(pre, w, seq![enc_byte(v as int)], newcap)[w] as int) == v,
{
    lemma_byte_round_trip(v);
}

/// Law: round trip through the store for unsigned bytes, for every
/// representable value `0 <= v <= 0xFF`.
pub proof fn lemma_store_unsigned_byte_round_trip(pre: Seq<u8>, w: int, newcap: int, v: u32)
    requires
        0 <= w,
        w + 1 <= newcap,
        v <= 0xFF,
    ensures
        written(pre, w, seq![enc_byte(v as int)], newcap)[w] as int == v,
{
    lemma_unsigned_byte_round_trip(v);
}

/// Law: round trip through the store for signed big-endian shorts, for
/// every representable value `-0x8000 <= v <= 0x7FFF`.
pub proof fn lemma_store_short_be_round_trip(pre: Seq<u8>, w: int, newcap: int, v: i32)
    requires
        0 <= w,
        w + 2 <= newcap,
        -0x8000 <= v <= 0x7FFF,
    ensures
        ({
            let s = written(pre, w, seq![enc16_hi(v as int), enc16_lo(v as int)], newcap);
            dec_i16_be(s[w], s[w + 1]) == v
        }),
{
    lemma_short_be_round_trip(v);
}

/// Law: round trip through the store for signed little-endian shorts, for
/// every representable value `-0x8000 <= v <= 0x7FFF`.
pub proof fn lemma_store_short_le_round_trip(pre: Seq<u8>, w: int, newcap: int, v: i32)
    requires
        0 <= w,
        w + 2 <= newcap,
        -0x8000 <= v <= 0x7FFF,
    ensures
        ({
            let s = written(pre, w, seq![enc16_lo(v as int), enc16_hi(v as int)], newcap);
            dec_i16_le(s[w], s[w + 1]) == v
        }),
{
    lemma_short_le_round_trip(v);
}

/// Law: round trip through the store for unsigned big-endian shorts, for
/// every representable value `0 <= v <= 0xFFFF` (written through the 16-bit
/// truncating short writer).
pub proof fn lemma_store_unsigned_short_be_round_trip(pre: Seq<u8>, w: int, newcap: int, v: u32)
    requires
        0 <= w,
        w + 2 <= newcap,
        v <= 0xFFFF,
    ensures
        ({
            let s = written(pre, w, seq![enc16_hi(v as int), enc16_lo(v as int)], newcap);
            dec_u16_be(s[w], s[w + 1]) == v
        }),
{
    lemma_unsigned_short_be_round_trip(v);
}

/// Law: round trip through the store for unsigned little-endian shorts, for
/// every representable value `0 <= v <= 0xFFFF` (written through the 16-bit
/// truncating short writer).
pub proof fn lemma_store_unsigned_short_le_round_trip(pre: Seq<u8>, w: int, newcap: int, v: u32)
    requires
        0 <= w,
        w + 2 <= newcap,
        v <= 0xFFFF,
    ensures
        ({
            let s = written(pre, w, seq![enc16_lo(v as int), enc16_hi(v as int)], newcap);
            dec_u16_le(s[w], s[w + 1]) == v
        }),
{
    lemma_unsigned_short_le_round_trip(v);
}

/// Law: round trip through the store for mediums, for every representable
/// value `0 <= v <= 0xFFFFFF`.
pub proof fn lemma_store_medium_round_trip(pre: Seq<u8>, w: int, newcap: int, v: i32)
    requires
        0 <= w,
        w + 3 <= newcap,
        0 <= v <= 0xFFFFFF,
    ensures
        ({
            let s = written(
                pre,
                w,
                seq![enc24_hi(v as int), enc24_mid(v as int), enc24_lo(v as int)],
                newcap,
            );
            dec_u24_be(s[w], s[w + 1], s[w + 2]) == v
        }),
{
    lemma_medium_round_trip(v);
}

} // verus!
