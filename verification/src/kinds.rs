//! The kind tag carried by the top bit of a high segment.

use vstd::prelude::*;

verus! {

/// What an identifier stands for. The tag occupies bit 31 of the high
/// segment: clear for [`IdKind::Entity`], set for [`IdKind::Placeholder`].
#[derive(Debug, Clone, Copy, PartialEq, Eq, Hash, Structural)]
pub enum IdKind {
    /// A plain entity; the kind bit is clear.
    Entity,
    /// A placeholder, such as a relationship pair; the kind bit is set.
    Placeholder,
}

impl IdKind {
    /// What the kind adds to a high segment: 2^31 for a placeholder, nothing
    /// for an entity.
    pub open spec fn flag(self) -> u32 {
        match self {
            IdKind::Entity => 0,
            IdKind::Placeholder => 0x8000_0000,
        }
    }
}

} // verus!
