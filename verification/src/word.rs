//! Bit-level reinterpretation between fixed-width scalars and the machine
//! word of an atomic backing, and the rule that picks the backing.
//!
//! Floating-point values are carried as their bit patterns: a single-width
//! float as a `u32`, a double-width float as a `u64`. Every conversion here
//! is a pure bit cast: widening keeps the value, narrowing keeps the low
//! bits, and nothing is rounded or range-checked.
use vstd::prelude::*;

verus! {

/// Whether a machine word of `word_bits` bits can hold, without loss, the bit
/// pattern of a value that is `value_bits` wide.
pub open spec fn word_holds(word_bits: int, value_bits: int) -> bool {
    word_bits >= value_bits
}

/// The width in bits of this platform's native atomic word.
pub fn native_word_bits() -> (bits: u32)
    ensures
        bits == usize::BITS,
        bits == isize::BITS,
        bits == 32 || bits == 64,
{
    usize::BITS
}

/// The backing rule: the atomic word strategy is used exactly when the
/// native word is at least as wide as the value. The answer is a constant of
/// the build target.
pub fn atomic_backing_for(value_bits: u32) -> (atomic: bool)
    ensures
        atomic == word_holds(usize::BITS as int, value_bits as int),
{
    native_word_bits() >= value_bits
}

/// The word that stands for an `i8`: the value, sign-extended.
pub fn word_of_i8(v: i8) -> (w: isize)
    ensures
        w == v as isize,
        w as int == v as int,
{
    v as isize
}

/// The `i8` that a word stands for: its low 8 bits, read as signed.
pub fn i8_of_word(w: isize) -> (v: i8)
    ensures
        v == w as i8,
{
    #[verifier::truncate]
    (w as i8)
}

/// The word that stands for a 32-bit pattern: the pattern, zero-extended.
pub fn word_of_u32(bits: u32) -> (w: usize)
    ensures
        w == bits as usize,
        w as int == bits as int,
{
    bits as usize
}

/// The 32-bit pattern that a word stands for: its low 32 bits.
pub fn u32_of_word(w: usize) -> (bits: u32)
    ensures
        bits == w as u32,
        bits as int == w as int % 0x1_0000_0000,
{
    proof {
        lemma_low_32_bits(w);
    }
    #[verifier::truncate]
    (w as u32)
}

/// The word that stands for an `i64`: the value itself where the word is 64
/// bits wide, its low bits otherwise.
pub fn word_of_i64(v: i64) -> (w: isize)
    ensures
        w == v as isize,
        word_holds(isize::BITS as int, 64) ==> w as int == v as int,
{
    #[verifier::truncate]
    (v as isize)
}

/// The `i64` that a word stands for: the word, sign-extended.
pub fn i64_of_word(w: isize) -> (v: i64)
    ensures
        v == w as i64,
        v as int == w as int,
{
    w as i64
}

/// The word that stands for a 64-bit pattern: the pattern itself where the
/// word is 64 bits wide, its low bits otherwise.
pub fn word_of_u64(bits: u64) -> (w: usize)
    ensures
        w == bits as usize,
        word_holds(usize::BITS as int, 64) ==> w as int == bits as int,
{
    #[verifier::truncate]
    (bits as usize)
}

/// The 64-bit pattern that a word stands for: the word, zero-extended.
pub fn u64_of_word(w: usize) -> (bits: u64)
    ensures
        bits == w as u64,
        bits as int == w as int,
{
    w as u64
}

/// Narrowing a word to 32 bits keeps the word modulo 2^32.
pub proof fn lemma_low_32_bits(w: usize)
    ensures
        (w as u32) as int == w as int % 0x1_0000_0000,
{
    assert((w as u32) as int == w as int % 0x1_0000_0000) by (bit_vector);
}

/// Every native word holds an 8-bit and a 32-bit value.
pub proof fn lemma_native_word_holds_narrow()
    ensures
        word_holds(isize::BITS as int, 8),
        word_holds(usize::BITS as int, 32),
{
}

/// An `i8` written to a word and read back is unchanged.
pub proof fn lemma_i8_round_trip(v: i8)
    ensures
        ((v as isize) as i8) == v,
{
    assert(((v as isize) as i8) == v) by (bit_vector);
}

/// A 32-bit pattern written to a word and read back is unchanged, bit for
/// bit: this holds of every pattern, so of every float of that width, the
/// NaNs with their payloads and both zeros included.
pub proof fn lemma_u32_round_trip(bits: u32)
    ensures
        ((bits as usize) as u32) == bits,
{
    assert(((bits as usize) as u32) == bits) by (bit_vector);
}

/// Where the native word is 64 bits wide, an `i64` written to a word and
/// read back is unchanged.
pub proof fn lemma_i64_round_trip(v: i64)
    requires
        word_holds(isize::BITS as int, 64),
    ensures
        ((v as isize) as i64) == v,
{
}

/// Where the native word is 64 bits wide, a 64-bit pattern written to a word
/// and read back is unchanged, bit for bit.
pub proof fn lemma_u64_round_trip(bits: u64)
    requires
        word_holds(usize::BITS as int, 64),
    ensures
        ((bits as usize) as u64) == bits,
{
}

} // verus!
