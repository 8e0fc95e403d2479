//! Byte and word arithmetic shared by the rest of the core.
//!
//! The executable code uses shifts and masks; the contracts speak of the same
//! quantities as integer arithmetic.

use vstd::prelude::*;

verus! {

/// The 16-bit word with high byte `hi` and low byte `lo`.
pub open spec fn word(hi: u8, lo: u8) -> u16 {
    (hi as int * 256 + lo as int) as u16
}

/// The signed value of a byte read as two's complement.
pub open spec fn signed(e: u8) -> int {
    if e < 0x80 {
        e as int
    } else {
        e as int - 256
    }
}

/// `v` reduced to 16 bits.
pub open spec fn wrap16(v: int) -> u16 {
    (v % 0x10000) as u16
}

pub proof fn lemma_word_bits(hi: u8, lo: u8)
    by (bit_vector)
    ensures
        (((hi as u16) << 8) | (lo as u16)) / 256 == hi as u16,
        (((hi as u16) << 8) | (lo as u16)) % 256 == lo as u16,
{
}

pub proof fn lemma_split_bits(v: u16)
    by (bit_vector)
    ensures
        (v >> 8) == v / 256,
        (v & 0xFF) == v % 256,
        (v >> 8) < 256,
{
}

/// Composes a word from its two bytes.
pub fn make_word(hi: u8, lo: u8) -> (r: u16)
    ensures
        r == word(hi, lo),
        r as int == hi as int * 256 + lo as int,
{
    proof {
        lemma_word_bits(hi, lo);
    }
    ((hi as u16) << 8) | (lo as u16)
}

/// The high byte of a word.
pub fn high_byte(v: u16) -> (r: u8)
    ensures
        r as int == v as int / 256,
{
    proof {
        lemma_split_bits(v);
    }
    (v >> 8) as u8
}

/// The low byte of a word.
pub fn low_byte(v: u16) -> (r: u8)
    ensures
        r as int == v as int % 256,
{
    proof {
        lemma_split_bits(v);
    }
    (v & 0xFF) as u8
}

/// `v + d`, wrapping at 16 bits.
pub fn up16(v: u16, d: u16) -> (r: u16)
    ensures
        r == wrap16(v + d),
{
    v.wrapping_add(d)
}

/// `v - d`, wrapping at 16 bits.
pub fn down16(v: u16, d: u16) -> (r: u16)
    ensures
        r == wrap16(v - d),
{
    v.wrapping_sub(d)
}

/// Adds a two's-complement byte offset to a word, wrapping at 16 bits.
pub fn add_signed(base: u16, e: u8) -> (r: u16)
    ensures
        r == wrap16(base as int + signed(e)),
{
    if e < 0x80 {
        base.wrapping_add(e as u16)
    } else {
        base.wrapping_sub(0x100 - (e as u16))
    }
}

/// Masking with a run of low ones is the remainder by a power of two, and
/// testing one bit is a comparison of remainders.
pub proof fn lemma_mask_bits(v: u8)
    by (bit_vector)
    ensures
        v & 0x01 == v % 2,
        v & 0x03 == v % 4,
        v & 0x07 == v % 8,
        v & 0x0F == v % 16,
        v & 0x1F == v % 32,
        v & 0x7F == v % 128,
        (v & 0x04 == 0) == (v % 8 < 4),
        (v & 0x80 != 0) == (v >= 0x80),
        (v & 0x01 != 0) == (v % 2 == 1),
        v >> 1 == v / 2,
        v >> 4 == v / 16,
        v >> 7 == v / 128,
        v << 1 == (v % 128) * 2,
        v << 4 == (v % 16) * 16,
        v & 0xFE == v - v % 2,
        (v & 0x02 != 0) == (v % 4 >= 2),
        (v & 0x08 != 0) == (v % 16 >= 8),
        (v & 0x10 != 0) == (v % 32 >= 16),
        (v & 0x20 != 0) == (v % 64 >= 32),
        (v & 0x40 != 0) == (v % 128 >= 64),
{
}

} // verus!
