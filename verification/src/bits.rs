//! Single bits of a segment and of a word, by which the layouts are stated
//! bit by bit.

use vstd::prelude::*;

verus! {

/// Whether bit `index` of a 32-bit segment is set; bit 0 is the least
/// significant.
pub open spec fn segment_bit(segment: u32, index: u32) -> bool {
    (segment >> index) & 1 == 1
}

/// Whether bit `index` of a 64-bit word is set; bit 0 is the least
/// significant.
pub open spec fn word_bit(word: u64, index: u32) -> bool {
    (word >> index) & 1 == 1
}

} // verus!
