//! Bit-in-byte selection and the fixed little-endian encoding of word and
//! double-word transfers, together with their round-trip laws.

use vstd::prelude::*;

verus! {

/// Whether bit `i` of byte `b` is set.
pub open spec fn bit_of_byte(b: u8, i: u8) -> bool {
    b >> i & 1 == 1
}

/// Byte `b` with bit `i` forced to `v` and every other bit unchanged.
pub open spec fn byte_with_bit(b: u8, i: u8, v: bool) -> u8 {
    if v {
        b | (1u8 << i)
    } else {
        b & !(1u8 << i)
    }
}

/// The low byte of a word in little-endian order.
pub open spec fn word_lo(w: u16) -> u8 {
    (w & 0xff) as u8
}

/// The high byte of a word in little-endian order.
pub open spec fn word_hi(w: u16) -> u8 {
    (w >> 8) as u8
}

/// The word encoded little-endian by the bytes `lo` and `hi`.
pub open spec fn word_of_bytes(lo: u8, hi: u8) -> u16 {
    lo as u16 | (hi as u16) << 8
}

/// Byte `i` (zero is least significant) of a double word in little-endian
/// order.
pub open spec fn dword_byte(d: u32, i: u8) -> u8 {
    (d >> (8 * i as u32) & 0xff) as u8
}

/// The double word encoded little-endian by the bytes `b0` through `b3`,
/// least significant first.
pub open spec fn dword_of_bytes(b0: u8, b1: u8, b2: u8, b3: u8) -> u32 {
    b0 as u32 | (b1 as u32) << 8 | (b2 as u32) << 16 | (b3 as u32) << 24
}

/// Reading back the bit just written yields the value written.
pub proof fn lemma_bit_round_trip(b: u8, i: u8, v: bool)
    requires
        i < 8,
    ensures
        bit_of_byte(byte_with_bit(b, i, v), i) == v,
{
    assert(i < 8 ==> (b | (1u8 << i)) >> i & 1 == 1) by (bit_vector);
    assert(i < 8 ==> (b & !(1u8 << i)) >> i & 1 == 0) by (bit_vector);
}

/// Writing one bit leaves every other bit of the byte unchanged.
pub proof fn lemma_bit_write_frames_others(b: u8, i: u8, j: u8, v: bool)
    requires
        i < 8,
        j < 8,
        i != j,
    ensures
        bit_of_byte(byte_with_bit(b, i, v), j) == bit_of_byte(b, j),
{
    assert(i < 8 && j < 8 && i != j ==> (b | (1u8 << i)) >> j & 1 == b >> j & 1) by (bit_vector);
    assert(i < 8 && j < 8 && i != j ==> (b & !(1u8 << i)) >> j & 1 == b >> j & 1)
        by (bit_vector);
}

/// Decoding the two bytes of an encoded word yields the word again.
pub proof fn lemma_word_round_trip(w: u16)
    ensures
        word_of_bytes(word_lo(w), word_hi(w)) == w,
{
    assert(((w & 0xff) as u8) as u16 | (((w >> 8) as u8) as u16) << 8 == w) by (bit_vector);
}

/// Decoding the four bytes of an encoded double word yields the double word
/// again.
pub proof fn lemma_dword_round_trip(d: u32)
    ensures
        dword_of_bytes(dword_byte(d, 0), dword_byte(d, 1), dword_byte(d, 2), dword_byte(d, 3))
            == d,
{
    assert(((d >> 0 & 0xff) as u8) as u32 | (((d >> 8 & 0xff) as u8) as u32) << 8 | (((d >> 16
        & 0xff) as u8) as u32) << 16 | (((d >> 24 & 0xff) as u8) as u32) << 24 == d)
        by (bit_vector);
}

/// Whether bit `i` of byte `b` is set.
pub fn get_bit_of_byte(b: u8, i: u8) -> (r: bool)
    requires
        i < 8,
    ensures
        r == bit_of_byte(b, i),
{
    b >> i & 1 == 1
}

/// Byte `b` with bit `i` forced to `v` and every other bit unchanged.
pub fn set_bit_of_byte(b: u8, i: u8, v: bool) -> (r: u8)
    requires
        i < 8,
    ensures
        r == byte_with_bit(b, i, v),
{
    if v {
        b | (1u8 << i)
    } else {
        b & !(1u8 << i)
    }
}

/// Splits a word into its little-endian bytes, low byte first.
pub fn word_to_bytes(w: u16) -> (r: (u8, u8))
    ensures
        r.0 == word_lo(w),
        r.1 == word_hi(w),
{
    ((w & 0xff) as u8, (w >> 8) as u8)
}

/// Assembles a word from its little-endian bytes, low byte first.
pub fn bytes_to_word(lo: u8, hi: u8) -> (r: u16)
    ensures
        r == word_of_bytes(lo, hi),
{
    lo as u16 | (hi as u16) << 8
}

/// Splits a double word into its little-endian bytes, least significant
/// first.
pub fn dword_to_bytes(d: u32) -> (r: (u8, u8, u8, u8))
    ensures
        r.0 == dword_byte(d, 0),
        r.1 == dword_byte(d, 1),
        r.2 == dword_byte(d, 2),
        r.3 == dword_byte(d, 3),
{
    let b0 = (d & 0xff) as u8;
    let b1 = (d >> 8 & 0xff) as u8;
    let b2 = (d >> 16 & 0xff) as u8;
    let b3 = (d >> 24 & 0xff) as u8;
    proof {
        assert((d & 0xff) as u8 == (d >> (8 * 0u32) & 0xff) as u8) by (bit_vector);
        assert((d >> 8 & 0xff) as u8 == (d >> (8 * 1u32) & 0xff) as u8) by (bit_vector);
        assert((d >> 16 & 0xff) as u8 == (d >> (8 * 2u32) & 0xff) as u8) by (bit_vector);
        assert((d >> 24 & 0xff) as u8 == (d >> (8 * 3u32) & 0xff) as u8) by (bit_vector);
    }
    (b0, b1, b2, b3)
}

/// Assembles a double word from its little-endian bytes, least significant
/// first.
pub fn bytes_to_dword(b0: u8, b1: u8, b2: u8, b3: u8) -> (r: u32)
    ensures
        r == dword_of_bytes(b0, b1, b2, b3),
{
    b0 as u32 | (b1 as u32) << 8 | (b2 as u32) << 16 | (b3 as u32) << 24
}

} // verus!
