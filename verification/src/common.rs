//! Helpers on bytes and 16-bit words that the bus and the engine share.

use vstd::prelude::*;

verus! {

/// The 16-bit word whose low byte is `low` and whose high byte is `high`.
pub open spec fn word_of(low: u8, high: u8) -> u16 {
    (high * 256 + low) as u16
}

/// The low byte of a word.
pub open spec fn low_of(word: u16) -> u8 {
    (word % 256) as u8
}

/// The high byte of a word.
pub open spec fn high_of(word: u16) -> u8 {
    (word / 256) as u8
}

/// A byte read as a two's-complement number, from -128 to 127.
pub open spec fn signed_of(byte: u8) -> int {
    if byte < 128 {
        byte as int
    } else {
        byte - 256
    }
}

/// Joins two bytes into a word, `b1` low and `b2` high.
#[inline(always)]
pub fn combine_bytes(b1: u8, b2: u8) -> (word: u16)
    ensures
        word == word_of(b1, b2),
{
    assert(((b2 as u16) << 8) | (b1 as u16) == (b2 as u16) * 256 + (b1 as u16)) by (bit_vector);
    ((b2 as u16) << 8) | b1 as u16
}

/// Splits a word into its low and its high byte.
pub fn split_word(word: u16) -> (bytes: (u8, u8))
    ensures
        bytes.0 == low_of(word),
        bytes.1 == high_of(word),
{
    assert((word & 0xff) == word % 256 && (word >> 8) == word / 256) by (bit_vector);
    ((word & 0xff) as u8, (word >> 8) as u8)
}

/// A word is the join of its two bytes.
pub proof fn lemma_split_then_combine(word: u16)
    ensures
        word_of(low_of(word), high_of(word)) == word,
{
}

/// The bytes of a joined word are the bytes it was joined from.
pub proof fn lemma_combine_then_split(low: u8, high: u8)
    ensures
        low_of(word_of(low, high)) == low,
        high_of(word_of(low, high)) == high,
{
}

} // verus!
