use vstd::prelude::*;
use crate::register::with_bit;

verus! {

/// What the shifts and masks on a byte compute, in arithmetic terms.
pub proof fn lemma_byte_bits(x: u8)
    by (bit_vector)
    ensures
        (x & 0x80 == 0) == (x < 0x80),
        ((x >> 7) == 1) == (x >= 0x80),
        ((x & 1) == 1) == (x % 2 == 1),
        x & 0x0F == x % 16,
        x & 0x1F == x % 32,
        x & 0x03 == x % 4,
        x & 0x07 == x % 8,
        x & 1 == x % 2,
        ((x >> 1) | (x << 7)) as int == x as int / 2 + 128 * (x as int % 2),
        (x & 0xF0) >> 4 == x / 16,
        ((x & 0xF0) >> 4) | ((x & 0x0F) << 4) == ((x % 16) * 16 + x / 16) as u8,
        (((x >> 7) & 1) != 0) == ((x / 128) % 2 == 1),
        (((x >> 6) & 1) != 0) == ((x / 64) % 2 == 1),
        (((x >> 5) & 1) != 0) == ((x / 32) % 2 == 1),
        (((x >> 4) & 1) != 0) == ((x / 16) % 2 == 1),
        ((x & 0x04) == 0x04) == ((x / 4) % 2 == 1),
        (((x & (1u8 << 5)) >> 5) == 0) == ((x / 32) % 2 == 0),
        (((x & (1u8 << 4)) >> 4) == 0) == ((x / 16) % 2 == 0),
        x & 0x03 < 4 && (x >> 2) & 0x03 < 4 && (x >> 4) & 0x03 < 4 && x >> 6 < 4,
        with_bit(x, 2, true) % 4 == x % 4 && with_bit(x, 2, false) % 4 == x % 4,
{
}

/// What combining two bytes computes, in arithmetic terms.
pub proof fn lemma_byte_pair_bits(x: u8, y: u8)
    by (bit_vector)
    ensures
        ((x as u16) << 8 | (y as u16)) as int == x * 256 + y,
        (x & 0xF0) | (y & 0x0F) == (x / 16 * 16 + y % 16) as u8,
        (x & 0xF8) | (y & 0x07) == (x / 8 * 8 + y % 8) as u8,
        ((x / 16 * 16 + y % 16) as u8) % 16 == y % 16,
        ((x / 16 * 16 + y % 16) as u8) / 16 == x / 16,
        x < 4 ==> ((y & 0xFC) | x) % 4 == x,
        x <= 15 ==> (y & 0xF0) | !x == (0xF0 + (15 - x)) as u8,
        y < 8 ==> ((((x << y) >> 7) << 1) == if x & (1u8 << ((7 - y) as u8)) != 0 { 2u8 } else { 0u8 }),
        y < 8 ==> (((x << y) >> 7) == if x & (1u8 << ((7 - y) as u8)) != 0 { 1u8 } else { 0u8 }),
{
}

/// Testing, setting and clearing bit `n` of a byte.
pub proof fn lemma_bit_ops(x: u8, n: u8)
    by (bit_vector)
    requires
        n < 8,
    ensures
        (((x & (1u8 << n)) >> n) == 1) == (x & (1u8 << n) != 0),
        ((x & (1u8 << n)) == (1u8 << n)) == (x & (1u8 << n) != 0),
        ((x ^ (x & (1u8 << n))) | (1u8 << n)) == x | (1u8 << n),
        ((x ^ (x & (1u8 << n))) | 0) == x & !(1u8 << n),
        ((x ^ (x & (1u8 << n))) | (0u8 << n)) == x & !(1u8 << n),
{
}

/// The two bytes of a 16-bit word, by masks and shifts.
pub proof fn lemma_word_bytes(v: u16)
    by (bit_vector)
    ensures
        ((v & 0xFF00) >> 8) as u8 == (v / 256) as u8,
        (v & 0xFF) as u8 == (v % 256) as u8,
        (v & 0x00FF) as u8 == (v % 256) as u8,
{
}

/// The low byte of a 16-bit word, by a mask.
pub proof fn lemma_word_low_mask(v: u16)
    by (bit_vector)
    ensures
        v & 0x00FF == v % 256,
        v & 0xFF == v % 256,
{
}

/// The low byte of a 16-bit word, by a cast.
pub proof fn lemma_word_low_byte(v: u16)
    by (bit_vector)
    ensures
        (v as u8) as int == v % 256,
{
}

/// Placing a byte in the high byte of a word, or below 0xFF00.
pub proof fn lemma_byte_in_word(x: u8)
    by (bit_vector)
    ensures
        (0xFF00u16 | x as u16) == (0xFF00 + x) as u16,
        (x as u16) << 8 == (x * 256) as u16,
        (((0xCBu8 as u16) << 8) | x as u16) == (0xCB00 + x) as u16,
{
}

} // verus!
