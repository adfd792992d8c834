//! Lookup in an entity remap table, and the mathematical remapping rule.
//!
//! A remap table is built while a set of entities is copied or merged into
//! another universe: it maps each copied entity's old identifier to the new
//! one. The table is `bevy_ecs`'s `EntityMap`; the library reads it through
//! one trusted lookup and states everything else over `table_entries`, the
//! table's contents as a mathematical map of raw identifiers.

use crate::entity::EntityId;
use vstd::prelude::*;

verus! {

#[verifier::external_type_specification]
#[verifier::external_body]
pub struct ExEntityMap(bevy_ecs::entity::EntityMap);

/// The entries of a remap table, as a map from the raw identifier of each
/// recorded entity to the raw identifier it is mapped to.
pub uninterp spec fn table_entries(entity_map: bevy_ecs::entity::EntityMap) -> Map<u32, u32>;

/// Relies on `bevy_ecs`'s `EntityMap::get`, which returns the entity recorded
/// for the given one and an error when none is recorded, and on
/// `Entity::from_raw` and `Entity::index` to carry a raw identifier in and out.
#[verifier::external_body]
pub(crate) fn entity_map_get(entity_map: &bevy_ecs::entity::EntityMap, target: EntityId) -> (r:
    Option<EntityId>)
    ensures
        (match r {
            Some(mapped) => table_entries(*entity_map).contains_key(target.raw)
                && mapped.raw == table_entries(*entity_map)[target.raw],
            None => !table_entries(*entity_map).contains_key(target.raw),
        }),
{
    match entity_map.get(bevy_ecs::entity::Entity::from_raw(target.raw)) {
        Ok(mapped) => Some(EntityId { raw: mapped.index() }),
        Err(_) => None,
    }
}

/// What remapping does to one raw identifier: a recorded identifier is
/// replaced by the one the table maps it to, and any other is left unchanged.
/// A missing entry is a valid outcome, not a failure: it denotes a parent
/// outside the copied set, whose identifier must survive untouched.
pub open spec fn remapped(target: u32, table: Map<u32, u32>) -> u32 {
    if table.contains_key(target) {
        table[target]
    } else {
        target
    }
}

/// Remapping through a table with no entries leaves every identifier unchanged.
pub proof fn lemma_remap_empty_table(target: u32)
    ensures
        remapped(target, Map::<u32, u32>::empty()) == target,
{
}

/// An identifier the table records is replaced by the recorded one.
pub proof fn lemma_remap_recorded(e1: u32, e2: u32, table: Map<u32, u32>)
    requires
        table.contains_key(e1),
        table[e1] == e2,
    ensures
        remapped(e1, table) == e2,
{
}

/// An identifier outside the table's domain passes through unchanged.
pub proof fn lemma_remap_unrecorded(target: u32, table: Map<u32, u32>)
    requires
        !table.contains_key(target),
    ensures
        remapped(target, table) == target,
{
}

/// Remapping through two tables in turn looks the identifier up in each
/// sequentially; when the tables' domains are disjoint and no identifier the
/// first table maps to is recorded in the second, the two passes act as one
/// pass through the combined table.
pub proof fn lemma_remap_compose(target: u32, t1: Map<u32, u32>, t2: Map<u32, u32>)
    requires
        t1.dom().disjoint(t2.dom()),
        forall|k: u32| #[trigger] t1.contains_key(k) ==> !t2.contains_key(t1[k]),
    ensures
        remapped(remapped(target, t1), t2) == remapped(target, t1.union_prefer_right(t2)),
{
    if t1.contains_key(target) {
        assert(!t2.contains_key(target));
    }
}

} // verus!
