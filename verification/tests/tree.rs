use bevy_immediate::entity_mapping::ImmediateModeEntityMapping;
use bevy_immediate::id::{ImmId, ImmIdBuilder};
use bevy_immediate::tree::{
    plan_entity, Current, CurrentEntity, EntityParams, EntityPlan, ImmMarker, ParentUpdate,
};

fn params(id: u64, entity: u64, spawned: bool) -> EntityParams {
    EntityParams { id: ImmId::from_hash(id), entity, will_be_spawned: spawned }
}

#[test]
fn root_states() {
    let id = ImmId::from_hash(1);
    let root = Current::root(id);
    assert_eq!(root.current_entity(), None);
    assert_eq!(root.current_imm_id(), id);
    assert_eq!(root.reinterpret_as_entity(), None);
    let attached = Current::rooted_at(id, 42);
    assert_eq!(attached.current_entity(), Some(42));
    assert_eq!(attached.reinterpret_as_entity(), Some(params(1, 42, false)));
}

#[test]
fn entering_and_restoring_child_scope() {
    let mut current = Current::rooted_at(ImmId::from_hash(1), 10);
    current.idx = 3;
    let before = current;
    let stored = current.enter(params(2, 20, true));
    assert_eq!(stored, before);
    assert_eq!(current.current_entity(), Some(20));
    assert_eq!(current.idx, 0);
    assert_eq!(current.entity, Some(CurrentEntity { entity: 20, will_be_spawned: true }));
    assert_eq!(current.reinterpret_as_entity(), Some(params(2, 20, true)));
    current.restore(stored);
    assert_eq!(current, before);
}

#[test]
fn plan_spawns_when_nothing_found() {
    let child = ImmId::from_hash(7);
    let marker = ImmMarker { id: child, iteration: 4 };
    let root = Current::root(ImmId::from_hash(1));
    assert_eq!(plan_entity(child, None, &root, 4), EntityPlan::Spawn { spawn_parent: None, marker });
    let attached = Current::rooted_at(ImmId::from_hash(1), 5);
    assert_eq!(
        plan_entity(child, None, &attached, 4),
        EntityPlan::Spawn { spawn_parent: Some(5), marker }
    );
}

#[test]
fn plan_reuses_and_fixes_parent() {
    let attached = Current::rooted_at(ImmId::from_hash(1), 5);
    assert_eq!(
        plan_entity(ImmId::from_hash(7), Some((9, Some(5))), &attached, 2),
        EntityPlan::Reuse { entity: 9, parent: ParentUpdate::Keep, stamp: 2 }
    );
    assert_eq!(
        plan_entity(ImmId::from_hash(7), Some((9, Some(6))), &attached, 2),
        EntityPlan::Reuse { entity: 9, parent: ParentUpdate::Insert(5), stamp: 2 }
    );
    assert_eq!(
        plan_entity(ImmId::from_hash(7), Some((9, None)), &attached, 2),
        EntityPlan::Reuse { entity: 9, parent: ParentUpdate::Insert(5), stamp: 2 }
    );
    let root = Current::root(ImmId::from_hash(1));
    assert_eq!(
        plan_entity(ImmId::from_hash(7), Some((9, Some(6))), &root, 2),
        EntityPlan::Reuse { entity: 9, parent: ParentUpdate::Remove, stamp: 2 }
    );
    assert_eq!(
        plan_entity(ImmId::from_hash(7), Some((9, None)), &root, 2),
        EntityPlan::Reuse { entity: 9, parent: ParentUpdate::Keep, stamp: 2 }
    );
}

#[test]
fn plan_params() {
    let id = ImmId::from_hash(3);
    let reuse = EntityPlan::Reuse { entity: 9, parent: ParentUpdate::Keep, stamp: 0 };
    assert_eq!(reuse.params(id, 100), params(3, 9, false));
    let spawn = EntityPlan::Spawn { spawn_parent: None, marker: ImmMarker { id, iteration: 0 } };
    assert_eq!(spawn.params(id, 100), params(3, 100, true));
}

#[test]
fn on_spawn_and_on_change_decisions() {
    let spawned = params(1, 2, true);
    let existing = params(1, 2, false);
    assert!(spawned.will_be_spawned());
    assert!(!existing.will_be_spawned());
    assert!(spawned.insert_on_change(false));
    assert!(existing.insert_on_change(true));
    assert!(!existing.insert_on_change(false));
}

#[test]
fn rebuilt_child_reuses_its_entity_and_is_stamped() {
    let mut mapping = ImmediateModeEntityMapping::<()>::new();
    // first frame: the child is spawned
    let mut first = Current::rooted_at(ImmId::from_hash(1), 5);
    let id = ImmIdBuilder::Auto.resolve(&mut first);
    let found = mapping.get(id).map(|e| (e, Some(5)));
    let plan = plan_entity(id, found, &first, 1);
    assert_eq!(plan, EntityPlan::Spawn { spawn_parent: Some(5), marker: ImmMarker { id, iteration: 1 } });
    mapping.marker_added(id, 77);
    // next frame: the same path gives the same id, which reuses the entity
    let mut second = Current::rooted_at(ImmId::from_hash(1), 5);
    let again = ImmIdBuilder::Auto.resolve(&mut second);
    assert_eq!(again, id);
    let found = mapping.get(again).map(|e| (e, Some(5)));
    assert_eq!(
        plan_entity(again, found, &second, 2),
        EntityPlan::Reuse { entity: 77, parent: ParentUpdate::Keep, stamp: 2 }
    );
}
