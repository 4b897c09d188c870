//! Fields of bits within a word.
use vstd::prelude::*;

verus! {

/// The word with `value` in the field that `mask` covers and its other bits as they were.
pub open spec fn with_field(word: u32, mask: u32, value: u32) -> u32 {
    (word & !mask) | value
}

/// Whether `value` lies within the field that `mask` covers.
pub open spec fn fits(value: u32, mask: u32) -> bool {
    value & mask == value
}

/// Whether two fields have no bit in common.
pub open spec fn disjoint(mask: u32, other: u32) -> bool {
    mask & other == 0
}

/// What was put in a field is what the field then holds.
pub proof fn lemma_field_reads_back(word: u32, mask: u32, value: u32)
    by (bit_vector)
    requires
        fits(value, mask),
    ensures
        with_field(word, mask, value) & mask == value,
{
}

/// Putting a value in one field leaves every other field as it was.
pub proof fn lemma_field_leaves_others(word: u32, mask: u32, value: u32, other: u32)
    by (bit_vector)
    requires
        fits(value, mask),
        disjoint(mask, other),
    ensures
        with_field(word, mask, value) & other == word & other,
{
}

/// Putting a value in a field keeps every bit outside it.
pub proof fn lemma_field_keeps_outside(word: u32, mask: u32, value: u32)
    by (bit_vector)
    requires
        fits(value, mask),
    ensures
        with_field(word, mask, value) & !mask == word & !mask,
{
}

/// Of two values put in one field, the later stays.
pub proof fn lemma_field_overwrites(word: u32, mask: u32, first: u32, second: u32)
    by (bit_vector)
    requires
        fits(first, mask),
    ensures
        with_field(with_field(word, mask, first), mask, second) == with_field(word, mask, second),
{
}

/// Values put in two disjoint fields can be put there in either order.
pub proof fn lemma_fields_commute(word: u32, mask: u32, value: u32, other: u32, other_value: u32)
    by (bit_vector)
    requires
        fits(value, mask),
        fits(other_value, other),
        disjoint(mask, other),
    ensures
        with_field(with_field(word, mask, value), other, other_value) == with_field(
            with_field(word, other, other_value),
            mask,
            value,
        ),
{
}

/// Putting back what a field holds changes nothing.
pub proof fn lemma_field_kept(word: u32, mask: u32)
    by (bit_vector)
    ensures
        with_field(word, mask, word & mask) == word,
{
}

/// To clear a field is to put zero in it.
pub proof fn lemma_field_cleared(word: u32, mask: u32)
    by (bit_vector)
    ensures
        with_field(word, mask, 0) == word & !mask,
{
}

/// To set every bit of a field is to put its mask in it.
pub proof fn lemma_field_filled(word: u32, mask: u32)
    by (bit_vector)
    ensures
        with_field(word, mask, mask) == word | mask,
{
}

} // verus!
