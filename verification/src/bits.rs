//! Small facts about bytes and words that the rest of the crate leans on.
//!
//! Contracts are stated with `/` and `%` wherever a value is taken apart, so
//! that the arithmetic solver can work with them; the executable code uses
//! shifts and masks. The lemmas here connect the two.

use vstd::prelude::*;

verus! {

/// `mask` if `flag` holds, otherwise no bit at all.
pub open spec fn mask_if(flag: bool, mask: u8) -> u8 {
    if flag {
        mask
    } else {
        0
    }
}

/// The 16-bit word with high byte `hi` and low byte `lo`.
pub open spec fn word_of(hi: u8, lo: u8) -> u16 {
    (hi as int * 256 + lo as int) as u16
}

/// The high byte of a word.
pub open spec fn high_byte(w: u16) -> u8 {
    (w / 256) as u8
}

/// The low byte of a word.
pub open spec fn low_byte(w: u16) -> u8 {
    (w % 256) as u8
}

/// An 8-bit two's complement offset, widened to sixteen bits.
pub open spec fn sign_extend(e: u8) -> u16 {
    if e < 128 {
        e as u16
    } else {
        (e as int + 0xFF00) as u16
    }
}

/// Sixteen-bit addition that wraps around.
pub open spec fn wrap16(x: int) -> u16 {
    (x % 0x1_0000) as u16
}

/// Eight-bit addition that wraps around.
pub open spec fn wrap8(x: int) -> u8 {
    (x % 0x100) as u8
}

/// Builds a word from its two bytes.
pub fn make_word(hi: u8, lo: u8) -> (w: u16)
    ensures
        w == word_of(hi, lo),
{
    proof {
        lemma_word_parts(hi, lo);
    }
    ((hi as u16) << 8) | (lo as u16)
}

/// Splits a word into its high and low byte.
pub fn split_word(w: u16) -> (parts: (u8, u8))
    ensures
        parts.0 == high_byte(w),
        parts.1 == low_byte(w),
        word_of(parts.0, parts.1) == w,
{
    proof {
        lemma_word_split(w);
    }
    ((w >> 8) as u8, (w & 0xFF) as u8)
}

/// Widens a signed 8-bit offset to a 16-bit addend.
pub fn widen_offset(e: u8) -> (w: u16)
    ensures
        w == sign_extend(e),
{
    if e < 128 {
        e as u16
    } else {
        0xFF00 + (e as u16)
    }
}

/// A high byte shifted up and joined with a low byte is 256 times the one
/// plus the other.
pub proof fn lemma_word_parts(hi: u8, lo: u8)
    by (bit_vector)
    ensures
        ((hi as u16) << 8) | (lo as u16) == (hi as u16) * 256 + (lo as u16),
        (hi as u16) * 256 + (lo as u16) <= 0xFFFF,
{
}

/// Shifting a word down by eight bits divides it by 256, and masking its
/// low eight bits gives the remainder.
pub proof fn lemma_word_split(w: u16)
    by (bit_vector)
    ensures
        (w >> 8) == w / 256,
        (w & 0xFF) == w % 256,
        w / 256 <= 0xFF,
        w % 256 <= 0xFF,
{
}

/// A word is its high byte times 256 plus its low byte, and taking the
/// bytes of a word built from two bytes gives the two bytes back.
pub proof fn lemma_word_round_trip(hi: u8, lo: u8, w: u16)
    ensures
        high_byte(word_of(hi, lo)) == hi,
        low_byte(word_of(hi, lo)) == lo,
        word_of(high_byte(w), low_byte(w)) == w,
{
}

/// The low four bits of a byte are its remainder modulo 16.
pub proof fn lemma_low_nibble(b: u8)
    by (bit_vector)
    ensures
        b & 0x0F == b % 16,
        b & 0x0F <= 15,
{
}

/// The upper four bits of a byte are the byte without its remainder modulo
/// 16.
pub proof fn lemma_high_nibble(b: u8)
    by (bit_vector)
    ensures
        b & 0xF0 == b - b % 16,
{
}

} // verus!
