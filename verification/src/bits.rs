//! The presence index of an overlay column: one bit per instance id,
//! packed into 64-bit words. Word `i / 64`, bit `i % 64`.

use vstd::prelude::*;

verus! {

/// True when bit `i` is set in the packed word sequence `words`.
/// A bit beyond the allocated words reads as clear.
pub open spec fn presence_bit(words: Seq<u64>, i: usize) -> bool {
    &&& i as int / 64 < words.len()
    &&& (words[i as int / 64] >> ((i as int % 64) as u64)) & 1u64 == 1u64
}

/// Setting bit `b` of a word makes that bit read as one.
pub proof fn lemma_or_sets_bit(w: u64, b: u64)
    requires
        b < 64,
    ensures
        ((w | (1u64 << b)) >> b) & 1u64 == 1u64,
{
    assert(((w | (1u64 << b)) >> b) & 1u64 == 1u64) by (bit_vector)
        requires
            b < 64,
    ;
}

/// Setting bit `b` of a word leaves every other bit unchanged.
pub proof fn lemma_or_preserves_other_bits(w: u64, b: u64, b2: u64)
    requires
        b < 64,
        b2 < 64,
        b2 != b,
    ensures
        ((w | (1u64 << b)) >> b2) & 1u64 == (w >> b2) & 1u64,
{
    assert(((w | (1u64 << b)) >> b2) & 1u64 == (w >> b2) & 1u64) by (bit_vector)
        requires
            b < 64,
            b2 < 64,
            b2 != b,
    ;
}

/// Clearing bit `b` of a word makes that bit read as zero.
pub proof fn lemma_andnot_clears_bit(w: u64, b: u64)
    requires
        b < 64,
    ensures
        ((w & !(1u64 << b)) >> b) & 1u64 == 0u64,
{
    assert(((w & !(1u64 << b)) >> b) & 1u64 == 0u64) by (bit_vector)
        requires
            b < 64,
    ;
}

/// Clearing bit `b` of a word leaves every other bit unchanged.
pub proof fn lemma_andnot_preserves_other_bits(w: u64, b: u64, b2: u64)
    requires
        b < 64,
        b2 < 64,
        b2 != b,
    ensures
        ((w & !(1u64 << b)) >> b2) & 1u64 == (w >> b2) & 1u64,
{
    assert(((w & !(1u64 << b)) >> b2) & 1u64 == (w >> b2) & 1u64) by (bit_vector)
        requires
            b < 64,
            b2 < 64,
            b2 != b,
    ;
}

/// Testing a bit with a mask agrees with shifting it down.
pub proof fn lemma_mask_test(w: u64, b: u64)
    requires
        b < 64,
    ensures
        ((w & (1u64 << b)) != 0u64) == ((w >> b) & 1u64 == 1u64),
{
    assert(((w & (1u64 << b)) != 0u64) == ((w >> b) & 1u64 == 1u64)) by (bit_vector)
        requires
            b < 64,
    ;
}

/// Every bit of the zero word is clear.
pub proof fn lemma_zero_word_clear(b: u64)
    requires
        b < 64,
    ensures
        (0u64 >> b) & 1u64 == 0u64,
{
    assert((0u64 >> b) & 1u64 == 0u64) by (bit_vector)
        requires
            b < 64,
    ;
}

/// Two instance ids are equal when they share both a word index and a bit
/// index.
pub proof fn lemma_same_word_same_bit(i: usize, j: usize)
    requires
        i as int / 64 == j as int / 64,
        i as int % 64 == j as int % 64,
    ensures
        i == j,
{
    assert(i as int == 64 * (i as int / 64) + i as int % 64) by (nonlinear_arith);
    assert(j as int == 64 * (j as int / 64) + j as int % 64) by (nonlinear_arith);
}

} // verus!
