//! Simple hashed state stored on immediate mode entities.
use crate::cached_hash::{cached, id_key, CachedHash, Key};
use crate::hashing::{id_digest, writes_of, HashPart};
use crate::id::{imm_id, ImmId};
use std::marker::PhantomData;
use vstd::prelude::*;

verus! {

/// Helper tool to store simple hashed state in immediate mode entity.
///
/// Useful for implementing toggle buttons, menus, dropdowns where
/// simple local state is enough. Values are given by the writes that hashing them makes.
#[must_use]
pub struct ImmLocalHashMemoryHelper<T> {
    key: ImmId,
    state: ImmId,
    changed: bool,
    _ph: PhantomData<T>,
}

/// The id of a value given by the writes that hashing it makes.
pub open spec fn value_id(parts: Seq<HashPart>) -> u64 {
    id_digest(writes_of(parts))
}

/// The state and change flag a helper starts with: the state stored on `entity` under `key`, or
/// `default` marked to be stored when none is stored.
pub open spec fn initial_memory(m: Map<Key, ImmId>, entity: u64, key: ImmId, default: ImmId) -> (
    ImmId,
    bool,
) {
    match cached(m, id_key(entity, key)) {
        Some(stored) => (stored, false),
        None => (default, true),
    }
}

/// The state and change flag after holding `value`: a value that differs from the one held
/// marks the state to be stored.
pub open spec fn store_step(s: (ImmId, bool), value: ImmId) -> (ImmId, bool) {
    (value, s.1 || s.0 != value)
}

/// The state and change flag after holding each of `values` in turn.
pub open spec fn stores_applied(s: (ImmId, bool), values: Seq<ImmId>) -> (ImmId, bool)
    decreases values.len(),
{
    if values.len() == 0 {
        s
    } else {
        store_step(stores_applied(s, values.drop_last()), values.last())
    }
}

/// The entity states once a helper with state and change flag `s` is finalized.
pub open spec fn memory_after_finalize(
    m: Map<Key, ImmId>,
    entity: u64,
    key: ImmId,
    s: (ImmId, bool),
) -> Map<Key, ImmId> {
    if s.1 {
        m.insert(id_key(entity, key), s.0)
    } else {
        m
    }
}

/// The `i`-th of `values` differs from the state held just before it was stored.
pub open spec fn store_differs(start: ImmId, values: Seq<ImmId>, i: int) -> bool {
    values[i] != (if i == 0 {
        start
    } else {
        values[i - 1]
    })
}

impl<T> ImmLocalHashMemoryHelper<T> {
    /// Memory key: id of the key the state is stored under.
    pub closed spec fn key(&self) -> ImmId {
        self.key
    }

    /// Id of the value held now.
    pub closed spec fn state(&self) -> ImmId {
        self.state
    }

    /// Whether the value held differs from what is stored on the entity.
    pub closed spec fn changed(&self) -> bool {
        self.changed
    }

    /// Read the state stored on `entity` under `memory_key`; when none is stored, hold
    /// `default_value` and mark it to be stored.
    pub fn new<Caps>(
        store: &CachedHash<Caps>,
        entity: u64,
        memory_key: &[HashPart],
        default_value: &[HashPart],
    ) -> (r: Self)
        ensures
            r.key()@ == value_id(memory_key@),
            match cached(store@, id_key(entity, r.key())) {
                Some(stored) => r.state() == stored && !r.changed(),
                None => r.state()@ == value_id(default_value@) && r.changed(),
            },
            forall|d: ImmId|
                d@ == value_id(default_value@) ==> (r.state(), r.changed()) == initial_memory(
                    store@,
                    entity,
                    r.key(),
                    d,
                ),
    {
        let key = imm_id(memory_key);
        let default = imm_id(default_value);
        proof {
            assert forall|d: ImmId| d@ == value_id(default_value@) implies d == default by {
                crate::id::lemma_imm_id_view_injective(d, default);
            }
        }
        match store.get(entity, key) {
            Some(stored) => ImmLocalHashMemoryHelper {
                key,
                state: stored,
                changed: false,
                _ph: PhantomData,
            },
            None => ImmLocalHashMemoryHelper {
                key,
                state: default,
                changed: true,
                _ph: PhantomData,
            },
        }
    }

    /// Is the value held the given value.
    pub fn is_stored(&mut self, value: &[HashPart]) -> (r: bool)
        ensures
            *final(self) == *old(self),
            r == (old(self).state()@ == value_id(value@)),
    {
        let id = imm_id(value);
        proof {
            crate::id::lemma_imm_id_view_injective(self.state, id);
        }
        self.state == id
    }

    /// Hold the given value; it is marked to be stored when it differs from the value held.
    pub fn store(&mut self, value: &[HashPart])
        ensures
            final(self).key() == old(self).key(),
            final(self).state()@ == value_id(value@),
            final(self).changed() == (old(self).changed() || old(self).state()@ != value_id(
                value@,
            )),
            forall|v: ImmId|
                v@ == value_id(value@) ==> (final(self).state(), final(self).changed())
                    == store_step((old(self).state(), old(self).changed()), v),
    {
        let id = imm_id(value);
        proof {
            crate::id::lemma_imm_id_view_injective(self.state, id);
            assert forall|v: ImmId| v@ == value_id(value@) implies v == id by {
                crate::id::lemma_imm_id_view_injective(v, id);
            }
        }
        if self.state != id {
            self.state = id;
            self.changed = true;
        }
    }

    /// Store the value held on `entity` when it changed.
    pub fn finalize<Caps>(self, store: &mut CachedHash<Caps>, entity: u64)
        ensures
            final(store)@ == (if self.changed() {
                old(store)@.insert(id_key(entity, self.key()), self.state())
            } else {
                old(store)@
            }),
            final(store)@ == memory_after_finalize(
                old(store)@,
                entity,
                self.key(),
                (self.state(), self.changed()),
            ),
    {
        if self.changed {
            let _ = store.cache(entity, self.key, self.state);
        }
    }
}


/// A changed value finalized on an entity is what the next helper for the same entity and
/// memory key holds, unchanged.
pub proof fn law_memory_roundtrip(
    stored: Map<Key, ImmId>,
    entity: u64,
    key: ImmId,
    state: ImmId,
)
    ensures
        cached(stored.insert(id_key(entity, key), state), id_key(entity, key)) == Some(state),
{
}

/// Facts of holding a run of values: the last value is held, the state is marked changed exactly
/// when it started so or some value differed from the one held before it, and an unchanged state
/// is still the one it started with.
proof fn lemma_stores_applied(start: (ImmId, bool), values: Seq<ImmId>)
    ensures
        values.len() == 0 ==> stores_applied(start, values) == start,
        values.len() > 0 ==> stores_applied(start, values).0 == values.last(),
        stores_applied(start, values).1 == (start.1 || exists|i: int|
            0 <= i < values.len() && #[trigger] store_differs(start.0, values, i)),
        !stores_applied(start, values).1 ==> stores_applied(start, values).0 == start.0,
    decreases values.len(),
{
    if values.len() > 0 {
        let prefix = values.drop_last();
        lemma_stores_applied(start, prefix);
        assert forall|i: int| 0 <= i < prefix.len() implies store_differs(start.0, values, i)
            == store_differs(start.0, prefix, i) by {}
        let last = values.len() - 1;
        if exists|i: int| 0 <= i < prefix.len() && #[trigger] store_differs(start.0, prefix, i) {
            let i = choose|i: int| 0 <= i < prefix.len() && #[trigger] store_differs(start.0, prefix, i);
            assert(store_differs(start.0, values, i));
        }
        assert(store_differs(start.0, values, last) == (values.last() != stores_applied(start, prefix).0));
    }
}

/// Holding any run of values between reading and finalizing: the last value is held; the entity's
/// stored state is written exactly when nothing was stored yet or some value differed from the
/// one held before it, and is left as it was otherwise; either way the entity then stores the
/// state held, which the next helper for the same entity and key starts from, unchanged.
pub proof fn law_memory_many_stores(
    m: Map<Key, ImmId>,
    entity: u64,
    key: ImmId,
    default: ImmId,
    values: Seq<ImmId>,
    next_default: ImmId,
)
    ensures
        ({
            let start = initial_memory(m, entity, key, default);
            let end = stores_applied(start, values);
            let after = memory_after_finalize(m, entity, key, end);
            &&& values.len() > 0 ==> end.0 == values.last()
            &&& end.1 == (cached(m, id_key(entity, key)) is None || exists|i: int|
                0 <= i < values.len() && #[trigger] store_differs(start.0, values, i))
            &&& !end.1 ==> after == m
            &&& cached(after, id_key(entity, key)) == Some(end.0)
            &&& initial_memory(after, entity, key, next_default) == (end.0, false)
        }),
{
    let start = initial_memory(m, entity, key, default);
    lemma_stores_applied(start, values);
}

/// A run of helper calls on one entity, as their contracts state each step: `helpers[0]` is what
/// [`ImmLocalHashMemoryHelper::new`] returned with a default whose id is `default`, and
/// `helpers[i + 1]` what [`ImmLocalHashMemoryHelper::store`] left after storing a value whose id
/// is `values[i]`. The last helper holds the last value, and finalizing it writes the entity's
/// state as [`law_memory_many_stores`] says.
pub proof fn law_memory_helper_calls<T>(
    m: Map<Key, ImmId>,
    entity: u64,
    default: ImmId,
    helpers: Seq<ImmLocalHashMemoryHelper<T>>,
    values: Seq<ImmId>,
    next_default: ImmId,
)
    requires
        helpers.len() == values.len() + 1,
        (helpers[0].state(), helpers[0].changed()) == initial_memory(
            m,
            entity,
            helpers[0].key(),
            default,
        ),
        forall|i: int|
            0 <= i < values.len() ==> (#[trigger] helpers[i + 1]).key() == helpers[i].key() && (
            helpers[i + 1].state(),
            helpers[i + 1].changed(),
        ) == store_step((helpers[i].state(), helpers[i].changed()), values[i]),
    ensures
        ({
            let key = helpers[0].key();
            let last = helpers.last();
            let end = (last.state(), last.changed());
            let after = memory_after_finalize(m, entity, last.key(), end);
            &&& last.key() == key
            &&& end == stores_applied(initial_memory(m, entity, key, default), values)
            &&& values.len() > 0 ==> last.state() == values.last()
            &&& last.changed() == (cached(m, id_key(entity, key)) is None || exists|i: int|
                0 <= i < values.len() && #[trigger] store_differs(helpers[0].state(), values, i))
            &&& !last.changed() ==> after == m
            &&& cached(after, id_key(entity, key)) == Some(last.state())
            &&& initial_memory(after, entity, key, next_default) == (last.state(), false)
        }),
    decreases values.len(),
{
    if values.len() > 0 {
        let n = values.len() - 1;
        let prefix = helpers.drop_last();
        assert forall|i: int| 0 <= i < values.drop_last().len() implies (#[trigger] prefix[i
            + 1]).key() == prefix[i].key() && (prefix[i + 1].state(), prefix[i + 1].changed())
            == store_step((prefix[i].state(), prefix[i].changed()), values.drop_last()[i]) by {
            assert(prefix[i + 1] == helpers[i + 1]);
        }
        law_memory_helper_calls(m, entity, default, prefix, values.drop_last(), next_default);
        assert(helpers[n + 1].key() == helpers[n].key());
        assert(prefix.last() == helpers[n]);
        assert(prefix[0] == helpers[0]);
    }
    law_memory_many_stores(m, entity, helpers[0].key(), default, values, next_default);
}

} // verus!
