//! Bit fields: a run of adjacent bits of a register, given by the position of
//! its lowest bit and by its mask.

use vstd::prelude::*;

verus! {

/// `mask` is a run of adjacent bits whose lowest is bit `position`.
pub open spec fn is_field(position: u32, mask: u32) -> bool {
    &&& position < 32
    &&& (mask >> position) << position == mask
    &&& (mask >> position) & 1 == 1
    &&& ((mask >> position) as u64) & (((mask >> position) as u64 + 1) as u64) == 0
}

/// The largest value that the field holds.
pub open spec fn field_max(position: u32, mask: u32) -> u32 {
    mask >> position
}

/// The word that holds `value` in the field and 0 elsewhere.
pub open spec fn encoded(position: u32, mask: u32, value: u32) -> u32 {
    (value << position) & mask
}

/// The value that `word` holds in the field.
pub open spec fn decoded(position: u32, mask: u32, word: u32) -> u32 {
    (word & mask) >> position
}

/// `word` with the field replaced by `value`.
pub open spec fn inserted(position: u32, mask: u32, word: u32, value: u32) -> u32 {
    (word & !mask) | encoded(position, mask, value)
}

/// The word that holds `value` in the field and 0 elsewhere. Bits of
/// `value` that do not fit in the field are dropped.
pub fn encode(position: u32, mask: u32, value: u32) -> (word: u32)
    requires
        position < 32,
    ensures
        word == encoded(position, mask, value),
{
    (value << position) & mask
}

/// The value that `word` holds in the field.
pub fn decode(position: u32, mask: u32, word: u32) -> (value: u32)
    requires
        position < 32,
    ensures
        value == decoded(position, mask, word),
{
    (word & mask) >> position
}

/// `word` with the field replaced by `value`, and every other bit kept.
pub fn insert(position: u32, mask: u32, word: u32, value: u32) -> (replaced: u32)
    requires
        position < 32,
    ensures
        replaced == inserted(position, mask, word, value),
{
    (word & !mask) | encode(position, mask, value)
}

/// What is written to a field is read back from it: every value up to the
/// largest that the field holds, that one included.
pub proof fn law_field_round_trip(position: u32, mask: u32, value: u32)
    requires
        is_field(position, mask),
        value <= field_max(position, mask),
    ensures
        decoded(position, mask, encoded(position, mask, value)) == value,
{
    assert(position < 32 && (mask >> position) << position == mask && (mask >> position) & 1 == 1
        && ((mask >> position) as u64) & (((mask >> position) as u64 + 1) as u64) == 0 && value
        <= mask >> position ==> (((value << position) & mask) & mask) >> position == value)
        by (bit_vector);
}

/// Replacing a field gives it the new value and keeps every bit outside it.
pub proof fn law_field_insert(position: u32, mask: u32, word: u32, value: u32)
    requires
        is_field(position, mask),
        value <= field_max(position, mask),
    ensures
        decoded(position, mask, inserted(position, mask, word, value)) == value,
        inserted(position, mask, word, value) & !mask == word & !mask,
{
    assert(position < 32 && (mask >> position) << position == mask && (mask >> position) & 1 == 1
        && ((mask >> position) as u64) & (((mask >> position) as u64 + 1) as u64) == 0 && value
        <= mask >> position ==> ((((word & !mask) | ((value << position) & mask)) & mask)
        >> position == value)) by (bit_vector);
    assert(((word & !mask) | ((value << position) & mask)) & !mask == word & !mask)
        by (bit_vector);
}

} // verus!
