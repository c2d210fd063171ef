//! Fixed-width wire codecs: the mathematical meaning of every byte layout
//! the buffer reads or writes, and the round-trip laws that relate encoding
//! to decoding.
//!
//! Multi-byte integers are laid out big-endian (most-significant byte first)
//! or little-endian (least-significant byte first). A "medium" is a 3-byte
//! (24-bit) big-endian integer. Writers truncate their argument to the wire
//! width (two's complement); readers reconstruct the value, sign-extending
//! where the codec is signed.

use vstd::arithmetic::div_mod::{
    lemma_div_denominator, lemma_fundamental_div_mod, lemma_fundamental_div_mod_converse_mod,
    lemma_small_mod,
};
use vstd::prelude::*;

verus! {

// ---------------------------------------------------------------------------
// Encoders: the bytes a writer emits for a value.
// ---------------------------------------------------------------------------

/// The single byte written for a boolean.
pub open spec fn enc_bool(v: bool) -> u8 {
    if v {
        1
    } else {
        0
    }
}

/// The low 8 bits of `v` (two's-complement truncation).
pub open spec fn enc_byte(v: int) -> u8 {
    (v % 0x100) as u8
}

/// The high byte of the 16-bit truncation of `v`.
pub open spec fn enc16_hi(v: int) -> u8 {
    ((v % 0x10000) / 0x100) as u8
}

/// The low byte of the 16-bit truncation of `v`.
pub open spec fn enc16_lo(v: int) -> u8 {
    ((v % 0x10000) % 0x100) as u8
}

/// Bits 16..24 of the 24-bit truncation of `v`.
pub open spec fn enc24_hi(v: int) -> u8 {
    ((v % 0x1000000) / 0x10000) as u8
}

/// Bits 8..16 of the 24-bit truncation of `v`.
pub open spec fn enc24_mid(v: int) -> u8 {
    (((v % 0x1000000) / 0x100) % 0x100) as u8
}

/// Bits 0..8 of the 24-bit truncation of `v`.
pub open spec fn enc24_lo(v: int) -> u8 {
    ((v % 0x1000000) % 0x100) as u8
}

// ---------------------------------------------------------------------------
// Decoders: the value a reader reconstructs from the bytes.
// ---------------------------------------------------------------------------

/// A nonzero byte decodes to `true`.
pub open spec fn dec_bool(b: u8) -> bool {
    b != 0
}

/// Sign extension of an 8-bit value given as `0 <= v < 0x100`.
pub open spec fn sign_extend8(v: int) -> int {
    if v >= 0x80 {
        v - 0x100
    } else {
        v
    }
}

/// Sign extension of a 16-bit value given as `0 <= v < 0x10000`.
pub open spec fn sign_extend16(v: int) -> int {
    if v >= 0x8000 {
        v - 0x10000
    } else {
        v
    }
}

/// Zero-extended 16-bit big-endian value of two bytes.
pub open spec fn dec_u16_be(b0: u8, b1: u8) -> int {
    b0 * 0x100 + b1
}

/// Zero-extended 16-bit little-endian value of two bytes.
pub open spec fn dec_u16_le(b0: u8, b1: u8) -> int {
    b1 * 0x100 + b0
}

/// Sign-extended 16-bit big-endian value of two bytes.
pub open spec fn dec_i16_be(b0: u8, b1: u8) -> int {
    sign_extend16(dec_u16_be(b0, b1))
}

/// Sign-extended 16-bit little-endian value of two bytes.
pub open spec fn dec_i16_le(b0: u8, b1: u8) -> int {
    sign_extend16(dec_u16_le(b0, b1))
}

/// 24-bit big-endian value of three bytes: `(b0<<16)|(b1<<8)|b2`, with no
/// sign extension beyond bit 23.
pub open spec fn dec_u24_be(b0: u8, b1: u8, b2: u8) -> int {
    b0 * 0x10000 + b1 * 0x100 + b2
}

// ---------------------------------------------------------------------------
// Executable truncation.
// ---------------------------------------------------------------------------

/// The Euclidean remainder of `val` by a positive modulus `m`: for a power
/// of two, the low bits of the two's-complement representation of `val`.
pub fn low_bits(val: i32, m: u32) -> (r: u32)
    requires
        1 <= m,
    ensures
        r == (val as int) % (m as int),
{
    if val >= 0 {
        let u: u32 = val as u32;
        u % m
    } else {
        // val == -k with 1 <= k <= 2^31, and (-k) % m is m - (k % m),
        // or 0 where m divides k.
        let k: u32 = (-(val as i64)) as u32;
        let s: u32 = k % m;
        proof {
            let vi = val as int;
            let mi = m as int;
            let ki = k as int;
            let si = s as int;
            lemma_fundamental_div_mod(ki, mi);
            let q = ki / mi;
            if s == 0 {
                assert(vi == (-q) * mi + 0) by (nonlinear_arith)
                    requires
                        ki == mi * q + si,
                        vi == -ki,
                        si == 0,
                ;
                lemma_fundamental_div_mod_converse_mod(vi, mi, -q, 0);
            } else {
                assert(vi == (-q - 1) * mi + (mi - si)) by (nonlinear_arith)
                    requires
                        ki == mi * q + si,
                        vi == -ki,
                ;
                lemma_fundamental_div_mod_converse_mod(vi, mi, -q - 1, mi - si);
            }
        }
        if s == 0 {
            0
        } else {
            m - s
        }
    }
}

// ---------------------------------------------------------------------------
// Round-trip laws: decoding what was encoded yields the value back, for
// every representable value of each codec.
// ---------------------------------------------------------------------------

/// The remainder by `m` of a value already within `[-m, m)` is the value
/// itself, shifted up by `m` when negative.
proof fn lemma_mod_in_range(v: int, m: int)
    requires
        0 < m,
        -m <= v < m,
    ensures
        v % m == if v < 0 {
            v + m
        } else {
            v
        },
{
    if v < 0 {
        lemma_fundamental_div_mod_converse_mod(v, m, -1, v + m);
    } else {
        lemma_small_mod(v as nat, m as nat);
    }
}

/// Law: a boolean written and read back is the same boolean.
pub proof fn lemma_boolean_round_trip(v: bool)
    ensures
        dec_bool(enc_bool(v)) == v,
{
}

/// Law: an unsigned byte value `0 <= v <= 0xFF` written and read back
/// zero-extended is the same value.
pub proof fn lemma_unsigned_byte_round_trip(v: u32)
    requires
        v <= 0xFF,
    ensures
        enc_byte(v as int) as int == v,
{
    lemma_small_mod(v as nat, 0x100);
}

/// Law: a signed byte value `-0x80 <= v <= 0x7F` written and read back
/// sign-extended is the same value.
pub proof fn lemma_byte_round_trip(v: i32)
    requires
        -0x80 <= v <= 0x7F,
    ensures
        sign_extend8(enc_byte(v as int) as int) == v,
{
    lemma_mod_in_range(v as int, 0x100);
}

/// The two bytes of the 16-bit truncation reassemble to the truncation.
proof fn lemma_dec16_of_enc16(v: int)
    ensures
        dec_u16_be(enc16_hi(v), enc16_lo(v)) == v % 0x10000,
        dec_u16_le(enc16_lo(v), enc16_hi(v)) == v % 0x10000,
{
    let low = v % 0x10000;
    lemma_fundamental_div_mod(low, 0x100);
}

/// Law: a signed short `-0x8000 <= v <= 0x7FFF` written big-endian and read
/// back sign-extended big-endian is the same value.
pub proof fn lemma_short_be_round_trip(v: i32)
    requires
        -0x8000 <= v <= 0x7FFF,
    ensures
        dec_i16_be(enc16_hi(v as int), enc16_lo(v as int)) == v,
{
    lemma_dec16_of_enc16(v as int);
    lemma_mod_in_range(v as int, 0x10000);
}

/// Law: a signed short `-0x8000 <= v <= 0x7FFF` written little-endian and
/// read back sign-extended little-endian is the same value.
pub proof fn lemma_short_le_round_trip(v: i32)
    requires
        -0x8000 <= v <= 0x7FFF,
    ensures
        dec_i16_le(enc16_lo(v as int), enc16_hi(v as int)) == v,
{
    lemma_dec16_of_enc16(v as int);
    lemma_mod_in_range(v as int, 0x10000);
}

/// Law: an unsigned short `0 <= v <= 0xFFFF` written big-endian and read
/// back zero-extended big-endian is the same value.
pub proof fn lemma_unsigned_short_be_round_trip(v: u32)
    requires
        v <= 0xFFFF,
    ensures
        dec_u16_be(enc16_hi(v as int), enc16_lo(v as int)) == v,
{
    lemma_dec16_of_enc16(v as int);
    lemma_small_mod(v as nat, 0x10000);
}

/// Law: an unsigned short `0 <= v <= 0xFFFF` written little-endian and read
/// back zero-extended little-endian is the same value.
pub proof fn lemma_unsigned_short_le_round_trip(v: u32)
    requires
        v <= 0xFFFF,
    ensures
        dec_u16_le(enc16_lo(v as int), enc16_hi(v as int)) == v,
{
    lemma_dec16_of_enc16(v as int);
    lemma_small_mod(v as nat, 0x10000);
}

/// Law: a medium `0 <= v <= 0xFFFFFF` written big-endian and read back is
/// the same value.
pub proof fn lemma_medium_round_trip(v: i32)
    requires
        0 <= v <= 0xFFFFFF,
    ensures
        dec_u24_be(enc24_hi(v as int), enc24_mid(v as int), enc24_lo(v as int)) == v,
{
    let w = v as int;
    lemma_small_mod(v as nat, 0x1000000);
    lemma_fundamental_div_mod(w, 0x100);
    lemma_fundamental_div_mod(w / 0x100, 0x100);
    lemma_div_denominator(w, 0x100, 0x100);
    assert(w / 0x10000 < 0x100) by {
        lemma_fundamental_div_mod(w, 0x10000);
    };
}

} // verus!
