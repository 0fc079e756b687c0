//! The two-flag identifier: one 64-bit word that holds a 32-bit low segment
//! in bits 0 to 31, a 30-bit high value in bits 32 to 61, the activation flag
//! in bit 62 and the kind flag in bit 63.
//!
//! An identifier of this layout is specified by its four parts: the low
//! segment, the high value, the kind and whether it is active. The parts
//! determine the word, and the word determines the parts.

use crate::bits::{segment_bit, word_bit};
use core::cmp::Ordering;
use vstd::prelude::*;
use vstd::std_specs::cmp::{PartialOrdSpec, PartialOrdSpecImpl};

verus! {

/// Selects the low segment of the word.
pub const LOW_MASK: u64 = 0x0000_0000_FFFF_FFFF;

/// Selects the high value of the word: bits 32 to 61.
pub const HIGH_MASK: u64 = 0x3FFF_FFFF_0000_0000;

/// The kind flag, bit 63: set for a pair.
pub const PAIR_FLAG: u64 = 0x8000_0000_0000_0000;

/// The activation flag, bit 62: set for a deactivated identifier.
pub const DEACTIVATED_FLAG: u64 = 0x4000_0000_0000_0000;

/// The width of the low segment in bits.
pub const SEGMENT_BITS: u32 = 32;

/// What an identifier stands for. The tag is bit 63 of the word: clear for
/// [`IdKind::Entity`], set for [`IdKind::Pair`].
#[derive(Debug, Clone, Copy, PartialEq, Eq, Hash, Structural)]
pub enum IdKind {
    /// A plain entity; the kind bit is clear.
    Entity,
    /// A relationship pair; the kind bit is set.
    Pair,
}

impl IdKind {
    /// What the kind adds to a word: 2^63 for a pair, nothing for an entity.
    pub open spec fn flag(self) -> u64 {
        match self {
            IdKind::Entity => 0,
            IdKind::Pair => PAIR_FLAG,
        }
    }
}

/// What the activation state adds to a word: 2^62 for a deactivated
/// identifier, nothing for an active one.
pub open spec fn activation_flag(active: bool) -> u64 {
    if active {
        0
    } else {
        DEACTIVATED_FLAG
    }
}

/// The word made of the four parts of an identifier: the low segment, 2^32
/// times the low 30 bits of the high value, and the two flags.
pub open spec fn word_of_parts(low: u32, high: u32, kind: IdKind, active: bool) -> u64 {
    (low + (high % 0x4000_0000) * 0x1_0000_0000 + activation_flag(active) + kind.flag()) as u64
}

/// An identifier of the two-flag layout. It stands for one 64-bit word, its
/// view, and every 64-bit word is the view of exactly one identifier.
/// Equality and order are those of the words.
#[derive(Debug, Clone, Copy, PartialEq, Eq, Ord, Hash, Structural)]
pub struct Identifier(u64);

impl View for Identifier {
    type V = u64;

    /// The packed word.
    closed spec fn view(&self) -> u64 {
        self.0
    }
}

impl Identifier {
    /// The identifier that stands for `value`.
    pub closed spec fn spec_from_bits(value: u64) -> Identifier {
        Identifier(value)
    }

    /// The active identifier made of `low`, the low 30 bits of `high`, and
    /// `kind`.
    pub open spec fn spec_new(low: u32, high: u32, kind: IdKind) -> Identifier {
        Self::spec_from_bits(word_of_parts(low, high, kind, true))
    }

    /// The low segment: the word modulo 2^32.
    pub open spec fn spec_low(self) -> u32 {
        (self@ % 0x1_0000_0000) as u32
    }

    /// The high value: the 30 bits above the low segment, flags left out.
    pub open spec fn spec_high(self) -> u32 {
        ((self@ / 0x1_0000_0000) % 0x4000_0000) as u32
    }

    /// The word itself.
    pub open spec fn spec_to_bits(self) -> u64 {
        self@
    }

    /// The kind: a pair from 2^63 on, an entity below.
    pub open spec fn spec_kind(self) -> IdKind {
        if self@ >= 0x8000_0000_0000_0000 {
            IdKind::Pair
        } else {
            IdKind::Entity
        }
    }

    /// Whether the identifier is active: whether the quotient of the word by
    /// 2^62 is even.
    pub open spec fn spec_is_active(self) -> bool {
        (self@ / 0x4000_0000_0000_0000) % 2 == 0
    }

    /// The active identifier with the low segment, high value and kind of
    /// this one.
    pub open spec fn spec_activate(self) -> Identifier {
        Self::spec_from_bits(
            word_of_parts(self.spec_low(), self.spec_high(), self.spec_kind(), true),
        )
    }

    /// The deactivated identifier with the low segment, high value and kind
    /// of this one.
    pub open spec fn spec_deactivate(self) -> Identifier {
        Self::spec_from_bits(
            word_of_parts(self.spec_low(), self.spec_high(), self.spec_kind(), false),
        )
    }

    /// Builds an active identifier from a low segment, a high value and a
    /// kind. Of `high` only the low 30 bits count: its two top bits are
    /// dropped, where the flags stand.
    #[inline]
    #[must_use]
    #[verifier::when_used_as_spec(spec_new)]
    pub fn new(low: u32, high: u32, kind: IdKind) -> (id: Identifier)
        ensures
            id == Self::spec_new(low, high, kind),
            id@ == word_of_parts(low, high, kind, true),
    {
        let masked_high: u64 = ((high as u64) << SEGMENT_BITS) & HIGH_MASK;
        let flag: u64 = match kind {
            IdKind::Entity => 0,
            IdKind::Pair => PAIR_FLAG,
        };
        assert(masked_high | (low as u64) | flag == low + (high % 0x4000_0000) * 0x1_0000_0000
            + flag) by (bit_vector)
            requires
                masked_high == ((high as u64) << SEGMENT_BITS) & HIGH_MASK,
                flag == 0 || flag == PAIR_FLAG,
        ;
        Identifier(masked_high | (low as u64) | flag)
    }

    /// Returns the low segment.
    #[inline]
    #[verifier::when_used_as_spec(spec_low)]
    pub fn low(self) -> (low: u32)
        ensures
            low == self.spec_low(),
    {
        proof {
            lemma_parts_by_mask(self);
        }
        (self.0 & LOW_MASK) as u32
    }

    /// Returns the high value, without the two flags.
    #[inline]
    #[verifier::when_used_as_spec(spec_high)]
    pub fn high(self) -> (high: u32)
        ensures
            high == self.spec_high(),
    {
        proof {
            lemma_parts_by_mask(self);
        }
        ((self.0 & HIGH_MASK) >> SEGMENT_BITS) as u32
    }

    /// Returns the identifier as a 64-bit word.
    #[inline]
    #[verifier::when_used_as_spec(spec_to_bits)]
    pub fn to_bits(self) -> (bits: u64)
        ensures
            bits == self@,
    {
        self.0
    }

    /// Reads an identifier from a 64-bit word. Every word is accepted and
    /// none is changed: what the flag bits hold is taken as it is.
    #[inline]
    #[verifier::when_used_as_spec(spec_from_bits)]
    pub fn from_bits(value: u64) -> (id: Identifier)
        ensures
            id == Self::spec_from_bits(value),
            id@ == value,
    {
        Identifier(value)
    }

    /// Returns the kind. Only bit 63 decides.
    #[inline]
    #[verifier::when_used_as_spec(spec_kind)]
    pub fn kind(self) -> (kind: IdKind)
        ensures
            kind == self.spec_kind(),
    {
        proof {
            lemma_parts_by_mask(self);
        }
        let bit: u64 = self.0 & PAIR_FLAG;
        if bit == PAIR_FLAG {
            IdKind::Pair
        } else {
            IdKind::Entity
        }
    }

    /// Whether the identifier is active. Only bit 62 decides.
    #[inline]
    #[verifier::when_used_as_spec(spec_is_active)]
    pub fn is_active(self) -> (active: bool)
        ensures
            active == self.spec_is_active(),
    {
        proof {
            lemma_parts_by_mask(self);
        }
        let bit: u64 = self.0 & DEACTIVATED_FLAG;
        bit == 0
    }

    /// Returns the identifier with the activation flag cleared and every
    /// other bit as it is.
    #[inline]
    #[verifier::when_used_as_spec(spec_activate)]
    pub fn activate(self) -> (id: Identifier)
        ensures
            id == self.spec_activate(),
            id@ == word_of_parts(self.low(), self.high(), self.kind(), true),
    {
        proof {
            lemma_activation_by_mask(self);
        }
        Identifier(self.0 & !DEACTIVATED_FLAG)
    }

    /// Returns the identifier with the activation flag set and every other
    /// bit as it is.
    #[inline]
    #[verifier::when_used_as_spec(spec_deactivate)]
    pub fn deactivate(self) -> (id: Identifier)
        ensures
            id == self.spec_deactivate(),
            id@ == word_of_parts(self.low(), self.high(), self.kind(), false),
    {
        proof {
            lemma_activation_by_mask(self);
        }
        Identifier(self.0 | DEACTIVATED_FLAG)
    }
}

impl PartialOrd for Identifier {
    /// Orders identifiers as their words are ordered.
    fn partial_cmp(&self, other: &Self) -> (order: Option<Ordering>) {
        if self.0 < other.0 {
            Some(Ordering::Less)
        } else if self.0 > other.0 {
            Some(Ordering::Greater)
        } else {
            Some(Ordering::Equal)
        }
    }
}

impl PartialOrdSpecImpl for Identifier {
    open spec fn obeys_partial_cmp_spec() -> bool {
        true
    }

    /// The order of the words.
    open spec fn partial_cmp_spec(&self, other: &Self) -> Option<Ordering> {
        if self@ < other@ {
            Some(Ordering::Less)
        } else if self@ > other@ {
            Some(Ordering::Greater)
        } else {
            Some(Ordering::Equal)
        }
    }
}

/// The accessors with masks and shifts: each part is read under its own mask.
pub proof fn lemma_parts_by_mask(id: Identifier)
    ensures
        id.low() == id.to_bits() & LOW_MASK,
        id.high() == (id.to_bits() & HIGH_MASK) >> SEGMENT_BITS,
        (id.kind() == IdKind::Pair) == (id.to_bits() & PAIR_FLAG == PAIR_FLAG),
        (id.kind() == IdKind::Entity) == (id.to_bits() & PAIR_FLAG == 0),
        id.is_active() == (id.to_bits() & DEACTIVATED_FLAG == 0),
        !id.is_active() == (id.to_bits() & DEACTIVATED_FLAG == DEACTIVATED_FLAG),
{
    let word = id.to_bits();
    assert(word & LOW_MASK == word % 0x1_0000_0000) by (bit_vector);
    assert((word & HIGH_MASK) >> SEGMENT_BITS == (word / 0x1_0000_0000) % 0x4000_0000)
        by (bit_vector);
    assert((word & PAIR_FLAG == PAIR_FLAG) == (word >= 0x8000_0000_0000_0000)) by (bit_vector);
    assert((word & PAIR_FLAG == 0) == (word < 0x8000_0000_0000_0000)) by (bit_vector);
    assert((word & DEACTIVATED_FLAG == 0) == ((word / 0x4000_0000_0000_0000) % 2 == 0))
        by (bit_vector);
    assert((word & DEACTIVATED_FLAG == DEACTIVATED_FLAG) == ((word / 0x4000_0000_0000_0000) % 2
        != 0)) by (bit_vector);
}

/// The two activation states of an identifier differ in bit 62 alone:
/// `deactivate` sets that bit, `activate` clears it, and neither touches
/// another.
pub proof fn lemma_activation_by_mask(id: Identifier)
    ensures
        id.activate().to_bits() == id.to_bits() & !DEACTIVATED_FLAG,
        id.deactivate().to_bits() == id.to_bits() | DEACTIVATED_FLAG,
{
    let word = id.to_bits();
    let kind_flag = id.kind().flag();
    assert(word & !DEACTIVATED_FLAG == word % 0x1_0000_0000 + ((word / 0x1_0000_0000)
        % 0x4000_0000) * 0x1_0000_0000 + kind_flag) by (bit_vector)
        requires
            kind_flag == (if word >= 0x8000_0000_0000_0000 {
                0x8000_0000_0000_0000u64
            } else {
                0u64
            }),
    ;
    assert(word | DEACTIVATED_FLAG == word % 0x1_0000_0000 + ((word / 0x1_0000_0000)
        % 0x4000_0000) * 0x1_0000_0000 + 0x4000_0000_0000_0000 + kind_flag) by (bit_vector)
        requires
            kind_flag == (if word >= 0x8000_0000_0000_0000 {
                0x8000_0000_0000_0000u64
            } else {
                0u64
            }),
    ;
}

/// Reading a word and writing it out gives the same word, whatever the word:
/// `to_bits` undoes `from_bits`.
pub proof fn lemma_bits_round_trip(value: u64)
    ensures
        Identifier::from_bits(value).to_bits() == value,
{
}

/// Writing an identifier out and reading it back gives the same identifier:
/// `from_bits` undoes `to_bits`.
pub proof fn lemma_identifier_round_trip(id: Identifier)
    ensures
        Identifier::from_bits(id.to_bits()) == id,
{
}

/// Two identifiers are equal exactly when their words are.
pub proof fn lemma_equal_by_bits(a: Identifier, b: Identifier)
    ensures
        (a == b) == (a.to_bits() == b.to_bits()),
{
}

/// Identifiers are ordered as their words are.
pub proof fn lemma_order_by_bits(a: Identifier, b: Identifier)
    ensures
        PartialOrdSpec::partial_cmp_spec(&a, &b) == PartialOrdSpec::partial_cmp_spec(
            &a.to_bits(),
            &b.to_bits(),
        ),
{
}

/// An identifier is its four parts: the word is made of the low segment, the
/// high value, the kind and the activation state, and of nothing else.
pub proof fn lemma_word_of_own_parts(id: Identifier)
    ensures
        id.to_bits() == word_of_parts(id.low(), id.high(), id.kind(), id.is_active()),
        id.high() <= 0x3FFF_FFFF,
{
}

/// Each part is read back from the word it was put into; of the high value,
/// its low 30 bits.
pub proof fn lemma_parts_of_word(low: u32, high: u32, kind: IdKind, active: bool)
    ensures
        Identifier::from_bits(word_of_parts(low, high, kind, active)).low() == low,
        Identifier::from_bits(word_of_parts(low, high, kind, active)).high() == high % 0x4000_0000,
        Identifier::from_bits(word_of_parts(low, high, kind, active)).kind() == kind,
        Identifier::from_bits(word_of_parts(low, high, kind, active)).is_active() == active,
{
}

/// What a new identifier holds: the low segment as given, the low 30 bits of
/// the high value, and the kind; and it is active.
pub proof fn lemma_parts_of_new(low: u32, high: u32, kind: IdKind)
    ensures
        Identifier::new(low, high, kind).low() == low,
        Identifier::new(low, high, kind).high() == high % 0x4000_0000,
        high <= 0x3FFF_FFFF ==> Identifier::new(low, high, kind).high() == high,
        Identifier::new(low, high, kind).kind() == kind,
        Identifier::new(low, high, kind).is_active(),
{
}

/// Deactivating an active identifier and activating it again gives it back,
/// and in between it is another identifier, which is not active.
pub proof fn lemma_reactivation(id: Identifier)
    requires
        id.is_active(),
    ensures
        id.deactivate().activate() == id,
        !id.deactivate().is_active(),
        id.deactivate() != id,
{
}

/// Activating a deactivated identifier and deactivating it again gives it
/// back, and in between it is another identifier, which is active.
pub proof fn lemma_redeactivation(id: Identifier)
    requires
        !id.is_active(),
    ensures
        id.activate().deactivate() == id,
        id.activate().is_active(),
        id.activate() != id,
{
}

/// The last of `activate` and `deactivate` decides the state, whatever it was
/// before: the result of `activate` is active, that of `deactivate` is not,
/// each leaves an identifier that is in its state already as it is, and only
/// the last of two counts.
pub proof fn lemma_last_activation_wins(id: Identifier)
    ensures
        id.activate().is_active(),
        !id.deactivate().is_active(),
        id.is_active() ==> id.activate() == id,
        !id.is_active() ==> id.deactivate() == id,
        id.deactivate().activate() == id.activate(),
        id.activate().deactivate() == id.deactivate(),
        id.activate().activate() == id.activate(),
        id.deactivate().deactivate() == id.deactivate(),
{
}

/// Changing the activation flag changes nothing that another accessor
/// returns: the kind, the low segment and the high value stay.
pub proof fn lemma_activation_keeps_parts(id: Identifier)
    ensures
        id.activate().kind() == id.kind(),
        id.activate().low() == id.low(),
        id.activate().high() == id.high(),
        id.deactivate().kind() == id.kind(),
        id.deactivate().low() == id.low(),
        id.deactivate().high() == id.high(),
{
}

/// Changing the kind flag changes nothing that another accessor returns: two
/// identifiers whose words agree in every bit below bit 63 have the same
/// activation state, low segment and high value.
pub proof fn lemma_kind_keeps_parts(a: Identifier, b: Identifier)
    requires
        a.to_bits() % 0x8000_0000_0000_0000 == b.to_bits() % 0x8000_0000_0000_0000,
    ensures
        a.is_active() == b.is_active(),
        a.low() == b.low(),
        a.high() == b.high(),
{
}

/// Identifiers with the same four parts are the same identifier.
pub proof fn lemma_equal_by_parts(a: Identifier, b: Identifier)
    requires
        a.low() == b.low(),
        a.high() == b.high(),
        a.kind() == b.kind(),
        a.is_active() == b.is_active(),
    ensures
        a == b,
{
}

/// The layout of the word, bit by bit: bit 63 is the kind flag, bit 62 the
/// activation flag, bits 32 to 61 are the high value and bits 0 to 31 the
/// low segment.
pub proof fn lemma_bits_of_word(id: Identifier, index: u32)
    requires
        index < SEGMENT_BITS,
    ensures
        word_bit(id.to_bits(), 63) == (id.kind() == IdKind::Pair),
        word_bit(id.to_bits(), 62) == !id.is_active(),
        word_bit(id.to_bits(), index) == segment_bit(id.low(), index),
        index < 30 ==> word_bit(id.to_bits(), (index + SEGMENT_BITS) as u32) == segment_bit(
            id.high(),
            index,
        ),
        index >= 30 ==> !segment_bit(id.high(), index),
{
    lemma_parts_by_mask(id);
    let word = id.to_bits();
    let low = id.low();
    let high = id.high();
    let above = (index + SEGMENT_BITS) as u32;
    assert(((word >> 63u32) & 1 == 1) == (word & PAIR_FLAG == PAIR_FLAG)) by (bit_vector);
    assert(((word >> 62u32) & 1 == 1) == (word & DEACTIVATED_FLAG == DEACTIVATED_FLAG))
        by (bit_vector);
    assert(((word >> index) & 1 == 1) == ((low >> index) & 1 == 1)) by (bit_vector)
        requires
            low == word & LOW_MASK,
            index < 32,
    ;
    assert(index < 30 ==> ((word >> above) & 1 == 1) == ((high >> index) & 1 == 1))
        by (bit_vector)
        requires
            high == (word & HIGH_MASK) >> SEGMENT_BITS,
            above == index + 32,
    ;
    assert(index >= 30 ==> (high >> index) & 1 == 0) by (bit_vector)
        requires
            high == (word & HIGH_MASK) >> SEGMENT_BITS,
            index < 32,
    ;
}

} // verus!
