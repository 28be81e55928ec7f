//! Per-entity cache of hashed values, used to detect changes between frames.
use crate::id::ImmId;
use bevy_platform::collections::HashMap;
use std::any::TypeId;
use std::collections::HashSet;
use std::marker::PhantomData;
use vstd::prelude::*;

verus! {

#[verifier::external_type_specification]
#[verifier::external_body]
pub struct ExTypeId(TypeId);

#[verifier::external_type_specification]
#[verifier::external_body]
pub struct ExFixedHasher(bevy_platform::hash::FixedHasher);

#[verifier::external_type_specification]
#[verifier::external_body]
#[verifier::reject_recursive_types(K)]
#[verifier::reject_recursive_types(V)]
#[verifier::reject_recursive_types(S)]
pub struct ExBevyHashMap<K, V, S>(HashMap<K, V, S>);

/// What a cached value is stored under, besides its entity.
#[derive(Clone, Copy, Debug, PartialEq, Eq, Hash)]
pub enum CacheKey {
    /// Keyed by a marker type.
    TypeId(TypeId),
    /// Keyed by an immediate mode id.
    Id(ImmId),
}

/// Key of a cached value: the entity and what the value is stored under.
#[derive(Clone, Copy, Debug, PartialEq, Eq, Hash)]
pub struct Key {
    /// The entity, by its bits.
    pub entity: u64,
    /// What the value is stored under.
    pub cache_key: CacheKey,
}

/// The map that holds cached values.
pub type CacheMap = HashMap<Key, ImmId>;

/// The entries of the cache map: keys and values as `bevy_platform`'s `HashMap` holds them,
/// keys compared by their fields.
pub uninterp spec fn cache_entries(m: CacheMap) -> Map<Key, ImmId>;

/// Calls `Default::default` for `bevy_platform`'s `HashMap`. Claimed: the map is empty.
#[verifier::external_body]
fn cache_map_new() -> (r: CacheMap)
    ensures
        cache_entries(r) =~= Map::empty(),
{
    HashMap::default()
}

/// Calls `HashMap::insert` of `bevy_platform`. Claimed: the key now maps to the value, and the
/// previous value of the key is returned.
#[verifier::external_body]
fn cache_map_insert(m: &mut CacheMap, k: Key, v: ImmId) -> (r: Option<ImmId>)
    ensures
        cache_entries(*final(m)) == cache_entries(*old(m)).insert(k, v),
        r == (if cache_entries(*old(m)).contains_key(k) {
            Some(cache_entries(*old(m))[k])
        } else {
            None
        }),
{
    m.insert(k, v)
}

/// Calls `HashMap::get` of `bevy_platform` and copies the value out. Claimed: the value of the
/// key, if it has one.
#[verifier::external_body]
fn cache_map_get(m: &CacheMap, k: &Key) -> (r: Option<ImmId>)
    ensures
        r == (if cache_entries(*m).contains_key(*k) {
            Some(cache_entries(*m)[*k])
        } else {
            None
        }),
{
    m.get(k).copied()
}

/// Calls `HashMap::remove` of `bevy_platform`. Claimed: the key is gone, and its previous value
/// is returned.
#[verifier::external_body]
fn cache_map_remove(m: &mut CacheMap, k: &Key) -> (r: Option<ImmId>)
    ensures
        cache_entries(*final(m)) == cache_entries(*old(m)).remove(*k),
        r == (if cache_entries(*old(m)).contains_key(*k) {
            Some(cache_entries(*old(m))[*k])
        } else {
            None
        }),
{
    m.remove(k)
}

/// Calls `HashMap::retain` of `bevy_platform` with a predicate that is [`entity_alive`].
/// Claimed: exactly the entries whose entity is in `alive` stay.
#[verifier::external_body]
fn cache_map_retain_alive(m: &mut CacheMap, alive: &HashSet<u64>)
    ensures
        cache_entries(*final(m)) == cache_entries(*old(m)).restrict(
            Set::new(|k: Key| alive@.contains(k.entity)),
        ),
{
    m.retain(|k, _v| entity_alive(alive, k))
}

/// Does the entity of the key still exist.
pub fn entity_alive(alive: &HashSet<u64>, key: &Key) -> (r: bool)
    ensures
        r == alive@.contains(key.entity),
{
    alive.contains(&key.entity)
}

/// Cache of hashed values per entity.
pub struct CachedHash<Caps> {
    values: CacheMap,
    _ph: PhantomData<Caps>,
}

impl<Caps> View for CachedHash<Caps> {
    type V = Map<Key, ImmId>;

    closed spec fn view(&self) -> Map<Key, ImmId> {
        cache_entries(self.values)
    }
}

/// The value cached under `key` in `m`, if any.
pub open spec fn cached(m: Map<Key, ImmId>, key: Key) -> Option<ImmId> {
    if m.contains_key(key) {
        Some(m[key])
    } else {
        None
    }
}

/// Does caching `value` under `key` change what `m` holds.
pub open spec fn cache_changes(m: Map<Key, ImmId>, key: Key, value: ImmId) -> bool {
    cached(m, key) != Some(value)
}

/// The key of an id-keyed value.
pub open spec fn id_key(entity: u64, key: ImmId) -> Key {
    Key { entity, cache_key: CacheKey::Id(key) }
}

/// The key of a type-keyed value.
pub open spec fn type_key(entity: u64, type_id: TypeId) -> Key {
    Key { entity, cache_key: CacheKey::TypeId(type_id) }
}

impl<Caps> CachedHash<Caps> {
    /// An empty cache.
    pub fn new() -> (r: Self)
        ensures
            r@ == Map::<Key, ImmId>::empty(),
    {
        CachedHash { values: cache_map_new(), _ph: PhantomData }
    }

    fn inner_cache(&mut self, key: Key, value: ImmId) -> (r: bool)
        ensures
            final(self)@ == old(self)@.insert(key, value),
            r == cache_changes(old(self)@, key, value),
    {
        match cache_map_get(&self.values, &key) {
            Some(existing) => {
                if existing == value {
                    proof {
                        assert(cache_entries(self.values).insert(key, value) =~= cache_entries(
                            self.values,
                        ));
                    }
                    false
                } else {
                    let _ = cache_map_insert(&mut self.values, key, value);
                    true
                }
            },
            None => {
                let _ = cache_map_insert(&mut self.values, key, value);
                true
            },
        }
    }

    /// Store `value` under `key` for `entity`; returns whether the stored value changed.
    pub fn cache(&mut self, entity: u64, key: ImmId, value: ImmId) -> (r: bool)
        ensures
            final(self)@ == old(self)@.insert(id_key(entity, key), value),
            r == cache_changes(old(self)@, id_key(entity, key), value),
    {
        self.inner_cache(Key { entity, cache_key: CacheKey::Id(key) }, value)
    }

    /// Store `value` under the marker type `type_id` for `entity`; returns whether the stored
    /// value changed.
    pub fn cache_typ(&mut self, entity: u64, type_id: TypeId, value: ImmId) -> (r: bool)
        ensures
            final(self)@ == old(self)@.insert(type_key(entity, type_id), value),
            r == cache_changes(old(self)@, type_key(entity, type_id), value),
    {
        self.inner_cache(Key { entity, cache_key: CacheKey::TypeId(type_id) }, value)
    }

    /// The value stored under `key` for `entity`.
    pub fn get(&self, entity: u64, key: ImmId) -> (r: Option<ImmId>)
        ensures
            r == cached(self@, id_key(entity, key)),
    {
        cache_map_get(&self.values, &Key { entity, cache_key: CacheKey::Id(key) })
    }

    /// The value stored under the marker type `type_id` for `entity`.
    pub fn get_typ(&self, entity: u64, type_id: TypeId) -> (r: Option<ImmId>)
        ensures
            r == cached(self@, type_key(entity, type_id)),
    {
        cache_map_get(&self.values, &Key { entity, cache_key: CacheKey::TypeId(type_id) })
    }

    /// Remove the value stored under `key` for `entity`, returning it.
    pub fn remove(&mut self, entity: u64, key: ImmId) -> (r: Option<ImmId>)
        ensures
            final(self)@ == old(self)@.remove(id_key(entity, key)),
            r == cached(old(self)@, id_key(entity, key)),
    {
        cache_map_remove(&mut self.values, &Key { entity, cache_key: CacheKey::Id(key) })
    }

    /// Remove the value stored under the marker type `type_id` for `entity`, returning it.
    pub fn remove_typ(&mut self, entity: u64, type_id: TypeId) -> (r: Option<ImmId>)
        ensures
            final(self)@ == old(self)@.remove(type_key(entity, type_id)),
            r == cached(old(self)@, type_key(entity, type_id)),
    {
        cache_map_remove(&mut self.values, &Key { entity, cache_key: CacheKey::TypeId(type_id) })
    }

    /// Drop the values of entities that no longer exist: only entries whose entity is in
    /// `alive` stay.
    pub fn clean(&mut self, alive: &HashSet<u64>)
        ensures
            final(self)@ == old(self)@.restrict(Set::new(|k: Key| alive@.contains(k.entity))),
    {
        cache_map_retain_alive(&mut self.values, alive);
    }
}


/// A value cached under a key is read back under that key.
pub proof fn law_cache_then_get(m: Map<Key, ImmId>, key: Key, value: ImmId)
    ensures
        cached(m.insert(key, value), key) == Some(value),
{
}

/// Caching the same value again reports no change.
pub proof fn law_cache_same_value_unchanged(m: Map<Key, ImmId>, key: Key, value: ImmId)
    ensures
        !cache_changes(m.insert(key, value), key, value),
{
}

/// Caching changes nothing under other keys.
pub proof fn law_cache_other_keys_unaffected(m: Map<Key, ImmId>, key: Key, other: Key, value: ImmId)
    requires
        key != other,
    ensures
        cached(m.insert(key, value), other) == cached(m, other),
{
}

/// A removed value is gone.
pub proof fn law_remove_then_get(m: Map<Key, ImmId>, key: Key)
    ensures
        cached(m.remove(key), key) is None,
{
}

/// Id keys and type keys never collide, even on the same entity.
pub proof fn law_id_and_type_keys_distinct(entity: u64, id: ImmId, type_id: TypeId)
    ensures
        id_key(entity, id) != type_key(entity, type_id),
{
}

/// Cleaning keeps exactly the values of entities that still exist.
pub proof fn law_clean_keeps_alive(m: Map<Key, ImmId>, alive: Set<u64>, key: Key)
    ensures
        cached(m.restrict(Set::new(|k: Key| alive.contains(k.entity))), key) == (if alive.contains(
            key.entity,
        ) {
            cached(m, key)
        } else {
            None
        }),
{
}

/// Caching reports a change exactly when the value stored before differs from the new one, for
/// id keys and type keys alike: the first value stored under a key is a change, and so is every
/// later value that differs from the one before it.
pub proof fn law_cache_reports_new_values(m: Map<Key, ImmId>, key: Key, before: ImmId, value: ImmId)
    ensures
        cache_changes(m.insert(key, before), key, value) == (before != value),
        cache_changes(m.remove(key), key, value),
        cache_changes(m, key, value) <==> !(m.contains_key(key) && m[key] == value),
{
}

} // verus!
