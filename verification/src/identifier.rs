//! The single-flag identifier: a low segment, and a high segment whose top bit
//! is the kind flag and whose other 31 bits are the value.

use crate::bits::{segment_bit, word_bit};
use crate::kinds::IdKind;
use crate::masks::{
    lemma_bits_of_extracted, lemma_bits_of_packed, IdentifierMask, HIGH_MASK, SEGMENT_BITS,
};
use core::cmp::Ordering;
use vstd::prelude::*;
use vstd::std_specs::cmp::{PartialOrdSpec, PartialOrdSpecImpl};

verus! {

/// An identifier of the single-flag layout. It stands for one 64-bit word,
/// its view, and every 64-bit word is the view of exactly one identifier.
/// Equality and order are those of the words.
#[derive(Debug, Clone, Copy, PartialEq, Eq, Ord, Hash, Structural)]
pub struct Identifier {
    // The high segment stands first: the derived total order then compares it
    // first, as the order of the words does.
    hi: u32,
    lo: u32,
}

impl View for Identifier {
    type V = u64;

    /// The packed word: the high segment above the low segment.
    closed spec fn view(&self) -> u64 {
        IdentifierMask::pack_into_u64(self.lo, self.hi)
    }
}

impl Identifier {
    /// The identifier that stands for `value`.
    pub closed spec fn spec_from_bits(value: u64) -> Identifier {
        Identifier { lo: IdentifierMask::get_low(value), hi: IdentifierMask::get_high(value) }
    }

    /// The identifier made of `low`, the low 31 bits of `high`, and `kind`.
    pub open spec fn spec_new(low: u32, high: u32, kind: IdKind) -> Identifier {
        Self::spec_from_bits(
            IdentifierMask::pack_into_u64(
                low,
                IdentifierMask::pack_kind_into_high(
                    IdentifierMask::extract_value_from_high(high),
                    kind,
                ),
            ),
        )
    }

    /// The low segment of the word.
    pub open spec fn spec_low(self) -> u32 {
        IdentifierMask::get_low(self@)
    }

    /// The high segment of the word, kind flag included.
    pub open spec fn spec_high(self) -> u32 {
        IdentifierMask::get_high(self@)
    }

    /// The word itself.
    pub open spec fn spec_to_bits(self) -> u64 {
        self@
    }

    /// Builds an identifier from a low segment, a high value and a kind. Of
    /// `high` only the low 31 bits count: its top bit is dropped, and the
    /// kind takes its place.
    #[inline]
    #[must_use]
    #[verifier::when_used_as_spec(spec_new)]
    pub fn new(low: u32, high: u32, kind: IdKind) -> (id: Identifier)
        ensures
            id == Self::spec_new(low, high, kind),
            id@ == IdentifierMask::pack_into_u64(
                low,
                IdentifierMask::pack_kind_into_high(
                    IdentifierMask::extract_value_from_high(high),
                    kind,
                ),
            ),
    {
        let masked_value = IdentifierMask::extract_value_from_high(high);
        Identifier { lo: low, hi: IdentifierMask::pack_kind_into_high(masked_value, kind) }
    }

    /// Returns the low segment.
    #[inline]
    #[verifier::when_used_as_spec(spec_low)]
    pub fn low(self) -> (low: u32)
        ensures
            low == self.spec_low(),
    {
        self.lo
    }

    /// Returns the high segment as it is stored, kind flag included.
    #[inline]
    #[verifier::when_used_as_spec(spec_high)]
    pub fn high(self) -> (high: u32)
        ensures
            high == self.spec_high(),
    {
        self.hi
    }

    /// Returns the identifier as a 64-bit word.
    #[inline]
    #[verifier::when_used_as_spec(spec_to_bits)]
    pub fn to_bits(self) -> (bits: u64)
        ensures
            bits == self@,
    {
        IdentifierMask::pack_into_u64(self.lo, self.hi)
    }

    /// Reads an identifier from a 64-bit word. Every word is accepted and
    /// none is changed: what the flag bits hold is taken as it is.
    #[inline]
    #[verifier::when_used_as_spec(spec_from_bits)]
    pub fn from_bits(value: u64) -> (id: Identifier)
        ensures
            id == Self::spec_from_bits(value),
            id@ == value,
    {
        Identifier { lo: IdentifierMask::get_low(value), hi: IdentifierMask::get_high(value) }
    }
}

impl PartialOrd for Identifier {
    /// Orders identifiers as their words are ordered.
    fn partial_cmp(&self, other: &Self) -> (order: Option<Ordering>) {
        if self.hi < other.hi {
            Some(Ordering::Less)
        } else if self.hi > other.hi {
            Some(Ordering::Greater)
        } else if self.lo < other.lo {
            Some(Ordering::Less)
        } else if self.lo > other.lo {
            Some(Ordering::Greater)
        } else {
            Some(Ordering::Equal)
        }
    }
}

impl PartialOrdSpecImpl for Identifier {
    open spec fn obeys_partial_cmp_spec() -> bool {
        true
    }

    /// The order of the words.
    open spec fn partial_cmp_spec(&self, other: &Self) -> Option<Ordering> {
        if self@ < other@ {
            Some(Ordering::Less)
        } else if self@ > other@ {
            Some(Ordering::Greater)
        } else {
            Some(Ordering::Equal)
        }
    }
}

/// Reading a word and writing it out gives the same word, whatever the word:
/// `to_bits` undoes `from_bits`.
pub proof fn lemma_bits_round_trip(value: u64)
    ensures
        Identifier::from_bits(value).to_bits() == value,
{
}

/// Writing an identifier out and reading it back gives the same identifier:
/// `from_bits` undoes `to_bits`.
pub proof fn lemma_identifier_round_trip(id: Identifier)
    ensures
        Identifier::from_bits(id.to_bits()) == id,
{
}

/// Two identifiers are equal exactly when their words are.
pub proof fn lemma_equal_by_bits(a: Identifier, b: Identifier)
    ensures
        (a == b) == (a.to_bits() == b.to_bits()),
{
}

/// Identifiers are ordered as their words are.
pub proof fn lemma_order_by_bits(a: Identifier, b: Identifier)
    ensures
        PartialOrdSpec::partial_cmp_spec(&a, &b) == PartialOrdSpec::partial_cmp_spec(
            &a.to_bits(),
            &b.to_bits(),
        ),
{
}

/// An identifier is its two segments: the word is the high segment above the
/// low segment, and identifiers with the same segments are the same.
pub proof fn lemma_bits_of_segments(a: Identifier, b: Identifier)
    ensures
        a.to_bits() == IdentifierMask::pack_into_u64(a.low(), a.high()),
        (a == b) == (a.low() == b.low() && a.high() == b.high()),
{
}

/// What a new identifier holds: the low segment as given, and a high segment
/// made of the low 31 bits of the high value and of the kind.
pub proof fn lemma_parts_of_new(low: u32, high: u32, kind: IdKind)
    ensures
        Identifier::new(low, high, kind).low() == low,
        Identifier::new(low, high, kind).high() == IdentifierMask::pack_kind_into_high(high, kind),
        IdentifierMask::extract_value_from_high(Identifier::new(low, high, kind).high())
            == IdentifierMask::extract_value_from_high(high),
        high <= HIGH_MASK ==> IdentifierMask::extract_value_from_high(
            Identifier::new(low, high, kind).high(),
        ) == high,
        IdentifierMask::extract_kind_from_high(Identifier::new(low, high, kind).high()) == kind,
{
}

/// A new identifier does not depend on the top bit of the high value it was
/// given: the bit is dropped, not refused.
pub proof fn lemma_new_masks_high(low: u32, high: u32, kind: IdKind)
    ensures
        Identifier::new(low, high, kind) == Identifier::new(
            low,
            IdentifierMask::extract_value_from_high(high),
            kind,
        ),
{
}

/// The layout of the word, bit by bit: bit 63 is the kind flag, bits 32 to 63
/// are the high segment and bits 0 to 31 the low segment.
pub proof fn lemma_bits_of_word(id: Identifier, index: u32)
    requires
        index < SEGMENT_BITS,
    ensures
        word_bit(id.to_bits(), 63) == (IdentifierMask::extract_kind_from_high(id.high())
            == IdKind::Placeholder),
        word_bit(id.to_bits(), index) == segment_bit(id.low(), index),
        word_bit(id.to_bits(), (index + SEGMENT_BITS) as u32) == segment_bit(id.high(), index),
{
    lemma_bits_of_packed(id.low(), id.high(), index);
    lemma_bits_of_packed(id.low(), id.high(), 31);
    lemma_bits_of_extracted(id.high(), 0);
}

} // verus!
