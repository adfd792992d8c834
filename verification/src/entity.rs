//! Plain entity identifiers, the values the relationship components point at.

use vstd::prelude::*;

verus! {

/// Raw identifier reserved for placeholder components: the maximal value,
/// which the entity allocator never hands out.
pub const PLACEHOLDER_RAW: u32 = u32::MAX;

/// An entity identifier, meaningful only within the universe that allocated it.
///
/// The library reads nothing of an entity but its raw identifier, so the
/// identifier is the whole value; equality of identifiers is equality of
/// entities within one universe.
#[derive(Clone, Copy, Debug, PartialEq, Eq, Structural)]
pub struct EntityId {
    pub raw: u32,
}

impl EntityId {
    /// The reserved sentinel identifier that marks an uninitialized component.
    pub fn placeholder() -> (r: EntityId)
        ensures
            r.raw == PLACEHOLDER_RAW,
    {
        EntityId { raw: PLACEHOLDER_RAW }
    }
}

} // verus!
