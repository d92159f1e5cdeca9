// Bytes, words and single bits.

use vstd::prelude::*;

verus! {

/// Whether bit `n` of `byte` is set, bit 0 being the least significant.
pub open spec fn bit_is_set(byte: u8, n: u8) -> bool {
    byte & (1u8 << n) != 0
}

/// The 16-bit value with `high` in its upper and `low` in its lower byte.
#[verifier::opaque]
pub open spec fn word_of(high: u8, low: u8) -> u16 {
    (high * 256 + low) as u16
}

/// The upper byte of `word`.
#[verifier::opaque]
pub open spec fn high_byte(word: u16) -> u8 {
    (word / 256) as u8
}

/// The lower byte of `word`.
#[verifier::opaque]
pub open spec fn low_byte(word: u16) -> u8 {
    (word % 256) as u8
}

/// Joins two bytes into a word.
pub fn join_bytes(high: u8, low: u8) -> (word: u16)
    ensures
        word == word_of(high, low),
        high_byte(word) == high,
        low_byte(word) == low,
{
    reveal(word_of);
    reveal(high_byte);
    reveal(low_byte);
    let word: u16 = (high as u16) << 8 | (low as u16);
    assert(word == high as u16 * 256 + low as u16) by (bit_vector)
        requires
            word == (high as u16) << 8 | (low as u16),
    ;
    word
}

/// Splits a word into its upper and its lower byte.
pub fn split_word(word: u16) -> (bytes: (u8, u8))
    ensures
        bytes.0 == high_byte(word),
        bytes.1 == low_byte(word),
        word_of(bytes.0, bytes.1) == word,
{
    reveal(word_of);
    reveal(high_byte);
    reveal(low_byte);
    let high: u16 = (word & 0xFF00) >> 8;
    let low: u16 = word & 0xFF;
    assert(high == word / 256 && low == word % 256) by (bit_vector)
        requires
            high == (word & 0xFF00) >> 8,
            low == word & 0xFF,
    ;
    (high as u8, low as u8)
}

/// Splitting a word and joining the halves gives the word back, and the other way round.
pub proof fn lemma_word_round_trip(word: u16, high: u8, low: u8)
    ensures
        word_of(high_byte(word), low_byte(word)) == word,
        high_byte(word_of(high, low)) == high,
        low_byte(word_of(high, low)) == low,
{
    reveal(word_of);
    reveal(high_byte);
    reveal(low_byte);
}

/// The lower four bits of a byte, as the executor masks them out.
pub fn low_nibble(byte: u8) -> (nibble: u8)
    ensures
        nibble == byte % 16,
{
    let nibble: u8 = byte & 0xF;
    assert(nibble == byte % 16) by (bit_vector)
        requires
            nibble == byte & 0xF,
    ;
    nibble
}

/// Tests bit `n` of `byte`.
pub fn test_bit(byte: u8, n: u8) -> (set: bool)
    requires
        n < 8,
    ensures
        set == bit_is_set(byte, n),
{
    byte & (1u8 << n) != 0
}

} // verus!
