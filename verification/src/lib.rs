//! Bit-packed identifiers.
//!
//! An identifier is one 64-bit word. Bits 0 to 31 are its low segment, bits
//! 32 to 63 its high segment, and the top of the high segment is reserved for
//! flags. Two layouts are offered, which differ in how many bits they
//! reserve:
//!
//! - [`identifier::Identifier`] reserves one bit. Bit 63 of the word (bit 31
//!   of the high segment) is the kind flag, and the high value has 31 bits.
//!   [`masks::IdentifierMask`] holds the operations on its segments, and
//!   [`kinds::IdKind`] its kinds.
//! - [`activation::Identifier`] reserves two bits. Bit 63 is the kind flag,
//!   bit 62 the activation flag, and the high value has 30 bits.
//!
//! In both layouts every 64-bit word is an identifier, reading a word and
//! writing it out again gives the same word, and identifiers are equal and
//! ordered as their words are.

pub mod activation;
pub mod bits;
pub mod identifier;
pub mod kinds;
pub mod masks;
