//! The parent-relationship components and their remapping behaviour.

use crate::entity::{EntityId, PLACEHOLDER_RAW};
use crate::remap::{entity_map_get, remapped, table_entries};
use vstd::prelude::*;

verus! {

/// Holds a reference to the parent entity of this entity.
///
/// Present only on entities that actually have a parent: absence of the
/// component, not a null field, marks a root entity. The wrapped identifier
/// is public, so callers read and write the parent wherever an `EntityId` is
/// expected.
#[derive(Clone, Copy, Debug, PartialEq, Eq, Structural)]
pub struct Parent(pub EntityId);

impl Parent {
    /// Translates the parent reference through a remap table, after the owning
    /// entity was copied or merged into another universe.
    ///
    /// A parent the table records is replaced by its mapped identifier; a
    /// parent outside the table is left unchanged, since it may live outside
    /// the copied set of entities. This never fails.
    pub fn map_entities(&mut self, entity_map: &bevy_ecs::entity::EntityMap)
        ensures
            final(self).0.raw == remapped(old(self).0.raw, table_entries(*entity_map)),
    {
        if let Some(mapped) = entity_map_get(entity_map, self.0) {
            self.0 = mapped;
        }
    }

    /// A sentinel instance for generic construction paths that must produce
    /// some value before real data is known. It carries the reserved maximal
    /// raw identifier, which the entity allocator never hands out, and must be
    /// overwritten before any hierarchy logic reads it.
    pub fn bootstrap_placeholder() -> (r: Parent)
        ensures
            r.0.raw == PLACEHOLDER_RAW,
    {
        Parent(EntityId::placeholder())
    }
}

/// Holds the [`Parent`] value this entity had when an external observer last
/// recorded it.
///
/// A shadow of [`Parent`], at most one observation behind it by design: the
/// change-detection collaborator diffs the two to emit hierarchy-changed
/// events. Only that collaborator writes it, so the target is not publicly
/// constructible; it is publicly readable through [`PreviousParent::target`].
#[derive(Clone, Copy, Debug, PartialEq, Eq, Structural)]
pub struct PreviousParent(pub(crate) EntityId);

impl PreviousParent {
    /// The recorded previous parent, as contracts speak of it. The wrapped
    /// field itself stays out of public reach, so that only this crate's
    /// collaborators write it.
    pub closed spec fn spec_target(self) -> EntityId {
        self.0
    }

    /// The recorded previous parent.
    pub fn target(&self) -> (r: EntityId)
        ensures
            r == self.spec_target(),
    {
        self.0
    }

    /// Translates the recorded reference through a remap table: the same
    /// total, unchanged-on-miss rule as [`Parent::map_entities`]. The two
    /// components stay separate code paths on purpose, since their write
    /// policies differ.
    pub fn map_entities(&mut self, entity_map: &bevy_ecs::entity::EntityMap)
        ensures
            final(self).spec_target().raw == remapped(
                old(self).spec_target().raw,
                table_entries(*entity_map),
            ),
    {
        if let Some(mapped) = entity_map_get(entity_map, self.0) {
            self.0 = mapped;
        }
    }

    /// A sentinel instance for generic construction paths, carrying the same
    /// reserved identifier as [`Parent::bootstrap_placeholder`].
    pub fn bootstrap_placeholder() -> (r: PreviousParent)
        ensures
            r.spec_target().raw == PLACEHOLDER_RAW,
    {
        PreviousParent(EntityId::placeholder())
    }
}

/// Two `Parent` values are equal exactly when their wrapped targets are equal.
pub proof fn lemma_parent_eq_iff_targets(a: Parent, b: Parent)
    ensures
        (a == b) <==> (a.0 == b.0),
{
}

/// Two `PreviousParent` values are equal exactly when their wrapped targets
/// are equal.
pub proof fn lemma_previous_parent_eq_iff_targets(a: PreviousParent, b: PreviousParent)
    ensures
        (a == b) <==> (a.spec_target() == b.spec_target()),
{
}

} // verus!
