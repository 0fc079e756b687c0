//! Splitting and joining the segments of a packed word.
//!
//! The low segment of a word is bits 0 to 31, the high segment bits 32 to 63.
//! Within a high segment, bit 31 is the kind flag and bits 0 to 30 are the
//! value. Each operation is specified arithmetically, as a quotient, a
//! remainder or a sum of multiples of powers of two; lemmas give the same
//! operations as masks and shifts, and bit by bit.

use crate::bits::{segment_bit, word_bit};
use crate::kinds::IdKind;
use vstd::prelude::*;

verus! {

/// Selects the low segment of a packed word; its complement selects the high
/// segment.
pub const LOW_MASK: u64 = 0x0000_0000_FFFF_FFFF;

/// Selects the value of a high segment: every bit but the kind flag.
pub const HIGH_MASK: u32 = 0x7FFF_FFFF;

/// The kind flag: the top bit of a high segment, and the complement of
/// [`HIGH_MASK`].
pub const KIND_FLAG: u32 = 0x8000_0000;

/// The width of a segment in bits.
pub const SEGMENT_BITS: u32 = 32;

/// The segment operations of the single-flag layout.
pub struct IdentifierMask;

impl IdentifierMask {
    /// The low segment of `value`: its remainder modulo 2^32.
    pub open spec fn spec_get_low(value: u64) -> u32 {
        (value % 0x1_0000_0000) as u32
    }

    /// The high segment of `value`: its quotient by 2^32.
    pub open spec fn spec_get_high(value: u64) -> u32 {
        (value / 0x1_0000_0000) as u32
    }

    /// The word whose high segment is `high` and whose low segment is `low`:
    /// 2^32 times `high`, plus `low`.
    pub open spec fn spec_pack_into_u64(low: u32, high: u32) -> u64 {
        (high * 0x1_0000_0000 + low) as u64
    }

    /// The value of a high segment: its remainder modulo 2^31.
    pub open spec fn spec_extract_value_from_high(value: u32) -> u32 {
        (value % 0x8000_0000) as u32
    }

    /// The kind of a high segment: a placeholder from 2^31 on, an entity
    /// below.
    pub open spec fn spec_extract_kind_from_high(value: u32) -> IdKind {
        if value >= 0x8000_0000 {
            IdKind::Placeholder
        } else {
            IdKind::Entity
        }
    }

    /// The high segment that has the value of `value` and the kind `kind`.
    pub open spec fn spec_pack_kind_into_high(value: u32, kind: IdKind) -> u32 {
        (value % 0x8000_0000 + kind.flag()) as u32
    }

    /// Returns the low segment of a packed word: its least significant 32
    /// bits.
    #[inline(always)]
    #[verifier::when_used_as_spec(spec_get_low)]
    pub fn get_low(value: u64) -> (low: u32)
        ensures
            low == Self::spec_get_low(value),
    {
        proof {
            lemma_split_by_mask(value);
        }
        (value & LOW_MASK) as u32
    }

    /// Returns the high segment of a packed word: its most significant 32
    /// bits, flag bits included.
    #[inline(always)]
    #[verifier::when_used_as_spec(spec_get_high)]
    pub fn get_high(value: u64) -> (high: u32)
        ensures
            high == Self::spec_get_high(value),
    {
        proof {
            lemma_split_by_mask(value);
        }
        ((value & !LOW_MASK) >> SEGMENT_BITS) as u32
    }

    /// Packs a low and a high segment into one word.
    #[inline(always)]
    #[verifier::when_used_as_spec(spec_pack_into_u64)]
    pub fn pack_into_u64(low: u32, high: u32) -> (word: u64)
        ensures
            word == Self::spec_pack_into_u64(low, high),
    {
        proof {
            lemma_pack_by_shift(low, high);
        }
        ((high as u64) << SEGMENT_BITS) | (low as u64)
    }

    /// Sets the kind flag of a high segment for a placeholder and clears it
    /// for an entity, whatever it was before. The other 31 bits stay as they
    /// are.
    #[inline(always)]
    #[verifier::when_used_as_spec(spec_pack_kind_into_high)]
    pub fn pack_kind_into_high(value: u32, kind: IdKind) -> (high: u32)
        ensures
            high == Self::spec_pack_kind_into_high(value, kind),
    {
        proof {
            lemma_flag_by_mask(value);
        }
        match kind {
            IdKind::Entity => value & HIGH_MASK,
            IdKind::Placeholder => value | KIND_FLAG,
        }
    }

    /// Returns the value of a high segment: the segment with the kind flag
    /// cleared.
    #[inline(always)]
    #[verifier::when_used_as_spec(spec_extract_value_from_high)]
    pub fn extract_value_from_high(value: u32) -> (high_value: u32)
        ensures
            high_value == Self::spec_extract_value_from_high(value),
    {
        proof {
            lemma_flag_by_mask(value);
        }
        value & HIGH_MASK
    }

    /// Returns the kind of a high segment. Only the kind flag decides; no
    /// other bit is looked at.
    #[inline(always)]
    #[verifier::when_used_as_spec(spec_extract_kind_from_high)]
    pub fn extract_kind_from_high(value: u32) -> (kind: IdKind)
        ensures
            kind == Self::spec_extract_kind_from_high(value),
    {
        proof {
            lemma_flag_by_mask(value);
        }
        let bit: u32 = value & KIND_FLAG;
        if bit == KIND_FLAG {
            IdKind::Placeholder
        } else {
            IdKind::Entity
        }
    }
}

/// Splitting with masks and shifts: the low segment is the word under
/// [`LOW_MASK`], the high segment is the word shifted down by a segment.
pub proof fn lemma_split_by_mask(word: u64)
    ensures
        IdentifierMask::get_low(word) == word & LOW_MASK,
        IdentifierMask::get_high(word) == word >> SEGMENT_BITS,
        IdentifierMask::get_high(word) == (word & !LOW_MASK) >> SEGMENT_BITS,
{
    assert(word & LOW_MASK == word % 0x1_0000_0000) by (bit_vector);
    assert(word >> SEGMENT_BITS == word / 0x1_0000_0000) by (bit_vector);
    assert((word & !LOW_MASK) >> SEGMENT_BITS == word / 0x1_0000_0000) by (bit_vector);
}

/// Packing with a shift: the word is the high segment shifted up by a
/// segment, with the low segment in the bits that the shift left empty.
pub proof fn lemma_pack_by_shift(low: u32, high: u32)
    ensures
        IdentifierMask::pack_into_u64(low, high) == ((high as u64) << SEGMENT_BITS) | (low as u64),
{
    assert(((high as u64) << SEGMENT_BITS) | (low as u64) == high * 0x1_0000_0000 + low)
        by (bit_vector);
}

/// The kind flag with masks: the value is the segment under [`HIGH_MASK`],
/// the kind is read under [`KIND_FLAG`], and packing a kind sets or clears
/// that one bit.
pub proof fn lemma_flag_by_mask(high: u32)
    ensures
        IdentifierMask::extract_value_from_high(high) == high & HIGH_MASK,
        (IdentifierMask::extract_kind_from_high(high) == IdKind::Placeholder) == (high & KIND_FLAG
            == KIND_FLAG),
        (IdentifierMask::extract_kind_from_high(high) == IdKind::Entity) == (high & KIND_FLAG == 0),
        IdentifierMask::pack_kind_into_high(high, IdKind::Entity) == high & HIGH_MASK,
        IdentifierMask::pack_kind_into_high(high, IdKind::Placeholder) == high | KIND_FLAG,
{
    assert(high & HIGH_MASK == high % 0x8000_0000) by (bit_vector);
    assert(high | KIND_FLAG == high % 0x8000_0000 + 0x8000_0000) by (bit_vector);
    assert((high & KIND_FLAG == KIND_FLAG) == (high >= 0x8000_0000)) by (bit_vector);
    assert((high & KIND_FLAG == 0) == (high < 0x8000_0000)) by (bit_vector);
}

/// Packing and then splitting gives the segments back: `get_low` and
/// `get_high` undo `pack_into_u64`.
pub proof fn lemma_split_of_packed(low: u32, high: u32)
    ensures
        IdentifierMask::get_low(IdentifierMask::pack_into_u64(low, high)) == low,
        IdentifierMask::get_high(IdentifierMask::pack_into_u64(low, high)) == high,
{
}

/// Splitting and then packing gives the word back: `pack_into_u64` undoes
/// `get_low` and `get_high`.
pub proof fn lemma_packed_of_split(word: u64)
    ensures
        IdentifierMask::pack_into_u64(
            IdentifierMask::get_low(word),
            IdentifierMask::get_high(word),
        ) == word,
{
}

/// The kind packed into a high segment is the kind extracted from it,
/// whatever the kind flag of the segment was before.
pub proof fn lemma_kind_of_packed_kind(high: u32, kind: IdKind)
    ensures
        IdentifierMask::extract_kind_from_high(IdentifierMask::pack_kind_into_high(high, kind))
            == kind,
{
}

/// Packing a kind into a high segment leaves the value of the segment as it
/// was.
pub proof fn lemma_value_of_packed_kind(high: u32, kind: IdKind)
    ensures
        IdentifierMask::extract_value_from_high(IdentifierMask::pack_kind_into_high(high, kind))
            == IdentifierMask::extract_value_from_high(high),
{
}

/// Only the last kind packed into a high segment counts, and packing the
/// kind that a segment already has changes nothing.
pub proof fn lemma_last_packed_kind_wins(high: u32, first: IdKind, last: IdKind)
    ensures
        IdentifierMask::pack_kind_into_high(IdentifierMask::pack_kind_into_high(high, first), last)
            == IdentifierMask::pack_kind_into_high(high, last),
        IdentifierMask::pack_kind_into_high(high, IdentifierMask::extract_kind_from_high(high))
            == high,
{
}

/// A high segment is made of its value and its kind, and of nothing else:
/// packing the kind of a segment into its value gives the segment back.
pub proof fn lemma_high_of_value_and_kind(high: u32)
    ensures
        IdentifierMask::pack_kind_into_high(
            IdentifierMask::extract_value_from_high(high),
            IdentifierMask::extract_kind_from_high(high),
        ) == high,
        high == IdentifierMask::extract_value_from_high(high)
            + IdentifierMask::extract_kind_from_high(high).flag(),
{
}

/// The value of a high segment has 31 bits and the kind of an entity, a value
/// of 31 bits is extracted as it is, and so extracting twice is extracting
/// once.
pub proof fn lemma_value_is_masked(high: u32)
    ensures
        IdentifierMask::extract_value_from_high(high) <= HIGH_MASK,
        IdentifierMask::extract_kind_from_high(IdentifierMask::extract_value_from_high(high))
            == IdKind::Entity,
        high <= HIGH_MASK ==> IdentifierMask::extract_value_from_high(high) == high,
        IdentifierMask::extract_value_from_high(IdentifierMask::extract_value_from_high(high))
            == IdentifierMask::extract_value_from_high(high),
{
}

/// The layout of a packed word, bit by bit: bit `index` of the low segment is
/// bit `index` of the word, and bit `index` of the high segment is bit
/// `index + 32` of the word.
pub proof fn lemma_bits_of_packed(low: u32, high: u32, index: u32)
    requires
        index < SEGMENT_BITS,
    ensures
        word_bit(IdentifierMask::pack_into_u64(low, high), index) == segment_bit(low, index),
        word_bit(IdentifierMask::pack_into_u64(low, high), (index + SEGMENT_BITS) as u32)
            == segment_bit(high, index),
{
    lemma_pack_by_shift(low, high);
    let word = IdentifierMask::pack_into_u64(low, high);
    let above = (index + SEGMENT_BITS) as u32;
    assert(((word >> index) & 1 == 1) == ((low >> index) & 1 == 1)) by (bit_vector)
        requires
            word == ((high as u64) << SEGMENT_BITS) | (low as u64),
            index < 32,
    ;
    assert(((word >> above) & 1 == 1) == ((high >> index) & 1 == 1)) by (bit_vector)
        requires
            word == ((high as u64) << SEGMENT_BITS) | (low as u64),
            index < 32,
            above == index + 32,
    ;
}

/// The layout of a high segment, bit by bit: bit 31 is the kind flag, and
/// packing a kind changes no bit below it.
pub proof fn lemma_bits_of_packed_kind(value: u32, kind: IdKind, index: u32)
    requires
        index < 31,
    ensures
        segment_bit(IdentifierMask::pack_kind_into_high(value, kind), index) == segment_bit(
            value,
            index,
        ),
        segment_bit(IdentifierMask::pack_kind_into_high(value, kind), 31) == (kind
            == IdKind::Placeholder),
{
    lemma_flag_by_mask(value);
    let cleared = IdentifierMask::pack_kind_into_high(value, IdKind::Entity);
    let set = IdentifierMask::pack_kind_into_high(value, IdKind::Placeholder);
    assert(((cleared >> index) & 1 == 1) == ((value >> index) & 1 == 1) && (cleared >> 31u32) & 1
        == 0) by (bit_vector)
        requires
            cleared == value & HIGH_MASK,
            index < 31,
    ;
    assert(((set >> index) & 1 == 1) == ((value >> index) & 1 == 1) && (set >> 31u32) & 1 == 1)
        by (bit_vector)
        requires
            set == value | KIND_FLAG,
            index < 31,
    ;
}

/// Extracting reads the bits it is meant to read and no other: the kind is
/// bit 31 alone, and the value is the segment with bit 31 cleared and every
/// bit below kept.
pub proof fn lemma_bits_of_extracted(high: u32, index: u32)
    requires
        index < 31,
    ensures
        (IdentifierMask::extract_kind_from_high(high) == IdKind::Placeholder) == segment_bit(
            high,
            31,
        ),
        segment_bit(IdentifierMask::extract_value_from_high(high), index) == segment_bit(
            high,
            index,
        ),
        !segment_bit(IdentifierMask::extract_value_from_high(high), 31),
{
    lemma_flag_by_mask(high);
    let value = IdentifierMask::extract_value_from_high(high);
    assert((high >= 0x8000_0000) == ((high >> 31u32) & 1 == 1)) by (bit_vector);
    assert(((value >> index) & 1 == 1) == ((high >> index) & 1 == 1) && (value >> 31u32) & 1
        == 0) by (bit_vector)
        requires
            value == high & HIGH_MASK,
            index < 31,
    ;
}

} // verus!
