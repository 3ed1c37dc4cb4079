//! Composition and decomposition of 16-bit words, high byte first.

use vstd::prelude::*;

verus! {

/// The word whose high byte is `f` and whose low byte is `s`.
pub open spec fn word_of(f: u8, s: u8) -> u16 {
    (f as int * 256 + s as int) as u16
}

/// The high byte of `v`.
pub open spec fn high_byte(v: u16) -> u8 {
    (v as int / 256) as u8
}

/// The low byte of `v`.
pub open spec fn low_byte(v: u16) -> u8 {
    (v as int % 256) as u8
}

/// Joins two bytes into a word, `f` becoming the high byte.
#[inline(always)]
pub fn combine_u8_to_u16(f: u8, s: u8) -> (w: u16)
    ensures
        w == word_of(f, s),
        high_byte(w) == f,
        low_byte(w) == s,
{
    let hi: u16 = f as u16;
    let lo: u16 = s as u16;
    assert((hi << 8) | lo == hi * 256 + lo) by (bit_vector)
        requires
            hi < 256,
            lo < 256,
    ;
    (hi << 8) | lo
}

/// Splits a word into its high and low byte, in that order.
#[inline(always)]
pub fn split_u16(v: u16) -> (r: (u8, u8))
    ensures
        r.0 == high_byte(v),
        r.1 == low_byte(v),
        word_of(r.0, r.1) == v,
{
    assert((v >> 8) == v / 256 && (v & 0xFF) == v % 256) by (bit_vector);
    let first: u8 = (v >> 8) as u8;
    let second: u8 = (v & 0xFF) as u8;
    (first, second)
}

/// Splitting a word and joining the halves gives the word back, and joining
/// two bytes and splitting the word gives the bytes back.
pub proof fn lemma_word_round_trip(f: u8, s: u8, v: u16)
    ensures
        word_of(high_byte(v), low_byte(v)) == v,
        high_byte(word_of(f, s)) == f,
        low_byte(word_of(f, s)) == s,
{
}

} // verus!
