//! Mapping from immediate mode ids to the entities that carry them.
use crate::id::ImmId;
use std::collections::HashMap;
use std::marker::PhantomData;
use vstd::prelude::*;

verus! {

#[verifier::external_type_specification]
#[verifier::external_body]
pub struct ExAhashRandomState(ahash::RandomState);

/// Calls `HashMap::insert` on a map hashed by `ahash::RandomState`.
/// Claimed: the key now maps to the value, and the previous value of the key is returned.
#[verifier::external_body]
fn id_map_insert(m: &mut HashMap<u64, u64, ahash::RandomState>, k: u64, v: u64) -> (r: Option<u64>)
    ensures
        final(m)@ == old(m)@.insert(k, v),
        r == (if old(m)@.contains_key(k) { Some(old(m)@[k]) } else { None }),
{
    m.insert(k, v)
}

/// Calls `HashMap::remove` on a map hashed by `ahash::RandomState`.
/// Claimed: the key is gone, and its previous value is returned.
#[verifier::external_body]
fn id_map_remove(m: &mut HashMap<u64, u64, ahash::RandomState>, k: u64) -> (r: Option<u64>)
    ensures
        final(m)@ == old(m)@.remove(k),
        r == (if old(m)@.contains_key(k) { Some(old(m)@[k]) } else { None }),
{
    m.remove(&k)
}

/// Calls `HashMap::get` on a map hashed by `ahash::RandomState` and copies the value out.
/// Claimed: the value of the key, if it has one.
#[verifier::external_body]
fn id_map_get(m: &HashMap<u64, u64, ahash::RandomState>, k: u64) -> (r: Option<u64>)
    ensures
        r == (if m@.contains_key(k) { Some(m@[k]) } else { None }),
{
    m.get(&k).copied()
}

/// Mapping from immediate mode ids, by hash value, to entities, by their bits.
pub struct ImmediateModeEntityMapping<Cap> {
    id_to_entity: HashMap<u64, u64, ahash::RandomState>,
    _ph: PhantomData<Cap>,
}

impl<Cap> View for ImmediateModeEntityMapping<Cap> {
    type V = Map<u64, u64>;

    closed spec fn view(&self) -> Map<u64, u64> {
        self.id_to_entity@
    }
}

/// The entity that `id` maps to in `m`, if any.
pub open spec fn mapped(m: Map<u64, u64>, id: ImmId) -> Option<u64> {
    if m.contains_key(id@) {
        Some(m[id@])
    } else {
        None
    }
}

impl<Cap> ImmediateModeEntityMapping<Cap> {
    /// An empty mapping.
    pub fn new() -> (r: Self)
        ensures
            r@ == Map::<u64, u64>::empty(),
    {
        ImmediateModeEntityMapping { id_to_entity: HashMap::default(), _ph: PhantomData }
    }

    /// The entity that carries `id`, if any.
    pub fn get(&self, id: ImmId) -> (r: Option<u64>)
        ensures
            r == mapped(self@, id),
    {
        id_map_get(&self.id_to_entity, id.hash_value())
    }

    /// Record that `entity` now carries the marker with `id`. Returns the entity that carried
    /// `id` before, which is an id collision.
    pub fn marker_added(&mut self, id: ImmId, entity: u64) -> (r: Option<u64>)
        ensures
            final(self)@ == old(self)@.insert(id@, entity),
            r == mapped(old(self)@, id),
    {
        id_map_insert(&mut self.id_to_entity, id.hash_value(), entity)
    }

    /// Record that the marker with `id` was removed from its entity.
    pub fn marker_removed(&mut self, id: ImmId)
        ensures
            final(self)@ == old(self)@.remove(id@),
    {
        let _ = id_map_remove(&mut self.id_to_entity, id.hash_value());
    }
}


/// After a marker with `id` is added to `entity`, the id maps to that entity.
pub proof fn law_added_marker_maps(m: Map<u64, u64>, id: ImmId, entity: u64)
    ensures
        mapped(m.insert(id@, entity), id) == Some(entity),
{
}

/// After the marker with `id` is removed, the id maps to nothing.
pub proof fn law_removed_marker_unmapped(m: Map<u64, u64>, id: ImmId)
    ensures
        mapped(m.remove(id@), id) is None,
{
}

/// Adding or removing the marker of one id leaves every other id as it was.
pub proof fn law_other_ids_unaffected(m: Map<u64, u64>, id: ImmId, other: ImmId, entity: u64)
    requires
        id != other,
    ensures
        mapped(m.insert(id@, entity), other) == mapped(m, other),
        mapped(m.remove(id@), other) == mapped(m, other),
{
    crate::id::lemma_imm_id_view_injective(id, other);
}

} // verus!
