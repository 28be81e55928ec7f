//! State of the entity tree walk that immediate mode code performs.
use crate::entity_mapping::mapped;
use crate::id::{resolved_id, ImmId, ImmIdBuilder};
use vstd::prelude::*;

verus! {

/// Entity that immediate mode is currently adding children to.
#[derive(Clone, Copy, Debug, PartialEq, Eq, Structural)]
pub struct CurrentEntity {
    /// The entity, by its bits.
    pub entity: u64,
    /// The entity will be spawned when commands are applied.
    pub will_be_spawned: bool,
}

/// Where immediate mode currently is in the entity tree.
#[derive(Clone, Copy, Debug, PartialEq, Eq, Structural)]
pub struct Current {
    /// Id of the entity whose children are being built.
    pub id: ImmId,
    /// The entity whose children are being built, if the tree is rooted at one.
    pub entity: Option<CurrentEntity>,
    /// How many children with auto generated ids have been built so far.
    pub idx: usize,
}


/// Attributes of an entity that immediate mode manages.
#[derive(Clone, Copy, Debug, PartialEq, Eq, Structural)]
pub struct EntityParams {
    /// Immediate mode id of the entity.
    pub id: ImmId,
    /// The entity, by its bits.
    pub entity: u64,
    /// The entity will be spawned when commands are applied.
    pub will_be_spawned: bool,
}

/// What is done with the `ChildOf` relation of a reused entity.
#[derive(Clone, Copy, Debug, PartialEq, Eq, Structural)]
pub enum ParentUpdate {
    /// The entity already has the right parent.
    Keep,
    /// Insert `ChildOf` to the given parent.
    Insert(u64),
    /// Remove `ChildOf`: the entity becomes a root.
    Remove,
}

/// Marker that immediate mode puts on the entities it manages: the entity's id and the upkeep
/// iteration in which the entity was last built.
#[derive(Clone, Copy, Debug, PartialEq, Eq, Structural)]
pub struct ImmMarker {
    /// Immediate mode id of the entity.
    pub id: ImmId,
    /// Upkeep iteration in which the entity was last built.
    pub iteration: u32,
}

/// How a child entity with a resolved id is obtained.
#[derive(Clone, Copy, Debug, PartialEq, Eq, Structural)]
pub enum EntityPlan {
    /// Reuse the entity that immediate mode already manages under this id, stamping its
    /// marker with the upkeep iteration `stamp`.
    Reuse { entity: u64, parent: ParentUpdate, stamp: u32 },
    /// Spawn a new entity carrying `marker`, as a child of `spawn_parent` if there is one.
    Spawn { spawn_parent: Option<u64>, marker: ImmMarker },
}

/// The parent entity of the children being built, if any.
pub open spec fn current_parent(current: Current) -> Option<u64> {
    match current.entity {
        Some(e) => Some(e.entity),
        None => None,
    }
}

/// The plan for the child with id `id` built in upkeep iteration `iteration`, whose id maps to
/// `found`: the entity and its present parent, when the id maps to an entity that immediate
/// mode still tracks.
pub open spec fn spec_plan_entity(
    id: ImmId,
    found: Option<(u64, Option<u64>)>,
    parent: Option<u64>,
    iteration: u32,
) -> EntityPlan {
    match found {
        None => EntityPlan::Spawn { spawn_parent: parent, marker: ImmMarker { id, iteration } },
        Some((entity, present)) => EntityPlan::Reuse {
            stamp: iteration,
            entity,
            parent: if present == parent {
                ParentUpdate::Keep
            } else {
                match parent {
                    Some(p) => ParentUpdate::Insert(p),
                    None => ParentUpdate::Remove,
                }
            },
        },
    }
}

/// The state inside a child entity: its id and entity, with no auto generated children yet.
pub open spec fn spec_entered(params: EntityParams) -> Current {
    Current {
        id: params.id,
        entity: Some(CurrentEntity { entity: params.entity, will_be_spawned: params.will_be_spawned }),
        idx: 0,
    }
}

/// Decide how the child entity with the resolved id `id` is obtained in upkeep iteration
/// `iteration`.
///
/// `found` is the entity that the id maps to, with its present parent, when that entity is still
/// tracked by immediate mode; `None` when the id maps to nothing or to an entity that is gone.
pub fn plan_entity(
    id: ImmId,
    found: Option<(u64, Option<u64>)>,
    current: &Current,
    iteration: u32,
) -> (r: EntityPlan)
    ensures
        r == spec_plan_entity(id, found, current_parent(*current), iteration),
{
    let parent = current.current_entity();
    match found {
        None => EntityPlan::Spawn { spawn_parent: parent, marker: ImmMarker { id, iteration } },
        Some((entity, present)) => {
            let update = if present == parent {
                ParentUpdate::Keep
            } else {
                match parent {
                    Some(p) => ParentUpdate::Insert(p),
                    None => ParentUpdate::Remove,
                }
            };
            EntityPlan::Reuse { entity, parent: update, stamp: iteration }
        },
    }
}

impl EntityPlan {
    /// The attributes of the child once the plan is carried out; `spawned` is the entity that
    /// spawning created, used only for [`EntityPlan::Spawn`].
    pub fn params(self, id: ImmId, spawned: u64) -> (r: EntityParams)
        ensures
            r.id == id,
            r.entity == (match self {
                EntityPlan::Reuse { entity, .. } => entity,
                EntityPlan::Spawn { .. } => spawned,
            }),
            r.will_be_spawned == (self is Spawn),
    {
        match self {
            EntityPlan::Reuse { entity, .. } => EntityParams { id, entity, will_be_spawned: false },
            EntityPlan::Spawn { .. } => EntityParams { id, entity: spawned, will_be_spawned: true },
        }
    }
}

impl EntityParams {
    /// Entity will be spawned when commands are applied: commands issued "on spawn" apply.
    pub fn will_be_spawned(&self) -> (r: bool)
        ensures
            r == self.will_be_spawned,
    {
        self.will_be_spawned
    }

    /// Should a bundle be inserted for a change: when the entity is being spawned or the
    /// caller reports a change.
    pub fn insert_on_change(&self, changed: bool) -> (r: bool)
        ensures
            r == (self.will_be_spawned || changed),
    {
        self.will_be_spawned || changed
    }
}

/// The parent of a reused entity once its `ChildOf` update is applied, given its present parent.
pub open spec fn parent_after(present: Option<u64>, update: ParentUpdate) -> Option<u64> {
    match update {
        ParentUpdate::Keep => present,
        ParentUpdate::Insert(p) => Some(p),
        ParentUpdate::Remove => None,
    }
}

/// Every child ends up attached to the entity whose children are being built, and its marker
/// records the iteration it was built in: a reused entity gets its `ChildOf` fixed when it
/// differs and its marker stamped; a spawned one is spawned under it with a marker of its id.
pub proof fn law_child_attached_to_current(
    id: ImmId,
    found: Option<(u64, Option<u64>)>,
    current: Current,
    iteration: u32,
)
    ensures
        match spec_plan_entity(id, found, current_parent(current), iteration) {
            EntityPlan::Reuse { entity, parent, stamp } => {
                &&& found == Some((entity, found.unwrap().1))
                &&& parent_after(found.unwrap().1, parent) == current_parent(current)
                &&& stamp == iteration
            },
            EntityPlan::Spawn { spawn_parent, marker } => {
                &&& found is None
                &&& spawn_parent == current_parent(current)
                &&& marker == ImmMarker { id, iteration }
            },
        },
{
}

/// Building again along the same path gives the same id: the id a builder resolves to depends
/// only on the parent's id and on how many auto generated siblings came before it.
pub proof fn law_same_path_same_id(builder: ImmIdBuilder, a: Current, b: Current)
    requires
        a.id == b.id,
        a.idx == b.idx,
    ensures
        resolved_id(builder, a) == resolved_id(builder, b),
{
}

/// A child built again under an id whose marker was added to `entity`, while that entity still
/// carries the marker, reuses `entity` and stamps its marker with the current iteration.
pub proof fn law_rebuilt_child_reuses_entity(
    m: Map<u64, u64>,
    id: ImmId,
    entity: u64,
    present: Option<u64>,
    current: Current,
    iteration: u32,
)
    ensures
        ({
            let found = match mapped(m.insert(id@, entity), id) {
                Some(e) => Some((e, present)),
                None => None,
            };
            spec_plan_entity(id, found, current_parent(current), iteration) matches EntityPlan::Reuse {
                entity: e,
                stamp,
                ..
            } && e == entity && stamp == iteration
        }),
{
}

/// Inside a child, the current entity is the child and auto generated ids count from zero.
pub proof fn law_entered_child_state(params: EntityParams)
    ensures
        current_parent(spec_entered(params)) == Some(params.entity),
        spec_entered(params).id == params.id,
        spec_entered(params).idx == 0,
{
}

impl Current {
    /// State at the root of a tree that is not attached to any entity.
    pub fn root(id: ImmId) -> (r: Current)
        ensures
            r == (Current { id, entity: None, idx: 0 }),
    {
        Current { id, entity: None, idx: 0 }
    }

    /// State at the root of a tree attached to an existing entity.
    pub fn rooted_at(id: ImmId, entity: u64) -> (r: Current)
        ensures
            r == (Current {
                id,
                entity: Some(CurrentEntity { entity, will_be_spawned: false }),
                idx: 0,
            }),
    {
        Current { id, entity: Some(CurrentEntity { entity, will_be_spawned: false }), idx: 0 }
    }

    /// Entity that is currently being managed; `None` at the root of an unattached tree.
    pub fn current_entity(&self) -> (r: Option<u64>)
        ensures
            r == current_parent(*self),
    {
        match self.entity {
            Some(e) => Some(e.entity),
            None => None,
        }
    }

    /// Immediate mode unique id.
    pub fn current_imm_id(&self) -> (r: ImmId)
        ensures
            r == self.id,
    {
        self.id
    }

    /// Step into a child entity to build its descendants; returns the state to restore after.
    pub fn enter(&mut self, params: EntityParams) -> (stored: Current)
        ensures
            stored == *old(self),
            *final(self) == spec_entered(params),
    {
        let stored = *self;
        *self = Current {
            id: params.id,
            entity: Some(CurrentEntity { entity: params.entity, will_be_spawned: params.will_be_spawned }),
            idx: 0,
        };
        stored
    }

    /// Step back out of a child entity.
    pub fn restore(&mut self, stored: Current)
        ensures
            *final(self) == stored,
    {
        *self = stored;
    }

    /// Manage current state as an entity; `None` only when the tree is not rooted at an entity.
    pub fn reinterpret_as_entity(&self) -> (r: Option<EntityParams>)
        ensures
            r == (match self.entity {
                Some(e) => Some(EntityParams { id: self.id, entity: e.entity, will_be_spawned: e.will_be_spawned }),
                None => None,
            }),
    {
        match self.entity {
            Some(e) => Some(EntityParams { id: self.id, entity: e.entity, will_be_spawned: e.will_be_spawned }),
            None => None,
        }
    }
}

} // verus!
