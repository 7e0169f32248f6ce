//! Arbitrary-precision integer words.
//!
//! A big integer crosses the boundary as a sign bit plus little-endian
//! 64-bit magnitude words; zero words is zero with either sign.  The
//! conversions here are proved value-exact, which is what the round-trip
//! guarantee of the value-conversion layer rests on.

use vstd::prelude::*;
use crate::status::Status;

verus! {

/// The magnitude encoded by little-endian 64-bit words.
pub open spec fn words_value(words: Seq<u64>) -> nat
    decreases words.len(),
{
    if words.len() == 0 {
        0
    } else {
        words[0] as nat + words_value(words.drop_first()) * 0x1_0000_0000_0000_0000
    }
}

/// The signed value of a big integer: the sign bit negates the magnitude,
/// so zero words is zero with either sign.
pub open spec fn bigint_value(sign_bit: bool, words: Seq<u64>) -> int {
    if sign_bit {
        -(words_value(words) as int)
    } else {
        words_value(words) as int
    }
}

/// An empty word sequence encodes zero.
pub proof fn lemma_words_value_empty()
    ensures
        words_value(Seq::<u64>::empty()) == 0,
{
}

/// A single word encodes itself.
pub proof fn lemma_words_value_one(w: u64)
    ensures
        words_value(seq![w]) == w,
{
    assert(seq![w].drop_first() =~= Seq::<u64>::empty());
    lemma_words_value_empty();
}

/// Two little-endian words encode low + high * 2^64.
pub proof fn lemma_words_value_two(lo: u64, hi: u64)
    ensures
        words_value(seq![lo, hi]) == lo + hi * 0x1_0000_0000_0000_0000,
{
    assert(seq![lo, hi].drop_first() =~= seq![hi]);
    lemma_words_value_one(hi);
}

/// Split a 128-bit value into its two little-endian 64-bit words.
pub fn split_u128(value: u128) -> (w: (u64, u64))
    ensures
        value == w.0 + w.1 * 0x1_0000_0000_0000_0000,
{
    proof {
        assert(value & 0xFFFF_FFFF_FFFF_FFFFu128 < 0x1_0000_0000_0000_0000u128) by (bit_vector);
        assert(value >> 64u128 < 0x1_0000_0000_0000_0000u128) by (bit_vector);
        assert(value == (value & 0xFFFF_FFFF_FFFF_FFFFu128) + (value >> 64u128)
            * 0x1_0000_0000_0000_0000) by (bit_vector);
    }
    let lo = (value & 0xFFFF_FFFF_FFFF_FFFF) as u64;
    let hi = (value >> 64) as u64;
    (lo, hi)
}

/// Join two little-endian 64-bit words into the 128-bit value they encode.
pub fn join_u128(lo: u64, hi: u64) -> (value: u128)
    ensures
        value == lo + hi * 0x1_0000_0000_0000_0000,
{
    lo as u128 + (hi as u128) * 0x1_0000_0000_0000_0000
}

/// Splitting then joining gives back the 128-bit value: the word encoding
/// is bit-exact.
pub proof fn lemma_u128_words_exact(value: u128, lo: u64, hi: u64)
    requires
        value == lo + hi * 0x1_0000_0000_0000_0000,
    ensures
        words_value(seq![lo, hi]) == value,
{
    lemma_words_value_two(lo, hi);
}

/// What reading a big integer back as an unsigned 128-bit value returns:
/// values wider than two words or strictly negative values are rejected as
/// invalid arguments.
pub open spec fn bigint_read_u128(sign_bit: bool, words: Seq<u64>) -> Result<u128, Status> {
    if words.len() > 2 {
        Err(Status::InvalidArg)
    } else if sign_bit && words_value(words) != 0 {
        Err(Status::InvalidArg)
    } else {
        Ok((words_value(words) as u128))
    }
}

/// What reading a big integer back as a signed 64-bit value returns: the
/// reader handles single-word magnitudes; wider values or values outside
/// the signed 64-bit range are rejected as invalid arguments.
pub open spec fn bigint_read_i64(sign_bit: bool, words: Seq<u64>) -> Result<i64, Status> {
    if words.len() > 1 {
        Err(Status::InvalidArg)
    } else if i64::MIN <= bigint_value(sign_bit, words) <= i64::MAX {
        Ok((bigint_value(sign_bit, words) as i64))
    } else {
        Err(Status::InvalidArg)
    }
}

/// The sign bit and magnitude word a signed 64-bit value is stored as.
pub fn i64_sign_and_word(value: i64) -> (r: (bool, u64))
    ensures
        r.0 == (value < 0),
        r.1 == (if value < 0 { -(value as int) } else { value as int }),
{
    if value < 0 {
        (true, (-(value as i128)) as u64)
    } else {
        (false, value as u64)
    }
}

/// Round trip for unsigned 128-bit values: storing the two split words with
/// a clear sign bit reads back as exactly the original value.
pub proof fn lemma_u128_round_trip(value: u128, lo: u64, hi: u64)
    requires
        value == lo + hi * 0x1_0000_0000_0000_0000,
    ensures
        bigint_read_u128(false, seq![lo, hi]) == Ok::<u128, Status>(value),
{
    lemma_words_value_two(lo, hi);
}

/// Round trip for unsigned 64-bit values: storing the single word with a
/// clear sign bit reads back as exactly the original value.
pub proof fn lemma_u64_round_trip(value: u64)
    ensures
        bigint_read_u128(false, seq![value]) == Ok::<u128, Status>(value as u128),
{
    lemma_words_value_one(value);
}

/// Round trip for signed 64-bit values: storing the sign bit and the
/// magnitude word reads back as exactly the original value.
pub proof fn lemma_i64_round_trip(value: i64)
    ensures
        bigint_read_i64(value < 0, seq![(if value < 0 { -(value as int) } else { value as int }) as u64])
            == Ok::<i64, Status>(value),
{
    let w = (if value < 0 { -(value as int) } else { value as int }) as u64;
    lemma_words_value_one(w);
}

/// What reading a big integer back as a signed 128-bit value returns: the
/// reader handles up to two magnitude words, and values outside the
/// signed 128-bit range are rejected as invalid arguments.
pub open spec fn bigint_read_i128(sign_bit: bool, words: Seq<u64>) -> Result<i128, Status> {
    if words.len() > 2 {
        Err(Status::InvalidArg)
    } else if i128::MIN <= bigint_value(sign_bit, words) <= i128::MAX {
        Ok((bigint_value(sign_bit, words) as i128))
    } else {
        Err(Status::InvalidArg)
    }
}

/// The magnitude a signed 128-bit value is stored as: its absolute value,
/// which always fits in 128 unsigned bits.
pub fn i128_magnitude(value: i128) -> (m: u128)
    ensures
        m == (if value < 0 { -(value as int) } else { value as int }),
{
    if value == i128::MIN {
        0x8000_0000_0000_0000_0000_0000_0000_0000u128
    } else if value < 0 {
        (-value) as u128
    } else {
        value as u128
    }
}

/// Round trip for signed 128-bit values: storing the sign bit and the two
/// magnitude words reads back as exactly the original value.
pub proof fn lemma_i128_round_trip(value: i128, lo: u64, hi: u64)
    requires
        lo + hi * 0x1_0000_0000_0000_0000 == (if value < 0 { -(value as int) } else {
            value as int
        }),
    ensures
        bigint_read_i128(value < 0, seq![lo, hi]) == Ok::<i128, Status>(value),
{
    lemma_words_value_two(lo, hi);
}

} // verus!
