use std::hash::{BuildHasher, Hasher};

use bevy_immediate::hashing::{digest_items, digest_parts, digest_with_prefix, HashPart};
use bevy_immediate::hotpatching::HotpatchingCounter;
use bevy_immediate::id::{imm_id, ImmId, ImmIdBuilder, AUTO_UNIQUE_PREFIX};
use bevy_immediate::tree::{Current, CurrentEntity};

fn seeded() -> ahash::AHasher {
    ahash::RandomState::with_seeds(1, 2, 3, 4).build_hasher()
}

#[test]
fn new_id_is_seeded_ahash_digest_of_writes() {
    let mut h = seeded();
    h.write_u64(7);
    h.write_u32(9);
    let expected = h.finish();
    let id = ImmId::new(&[HashPart::U64(7), HashPart::U32(9)]);
    assert_eq!(id.hash_value(), expected);
    assert_ne!(id.hash_value(), 7);
}

#[test]
fn every_write_kind_is_replayed() {
    let parts = vec![
        HashPart::U8(1),
        HashPart::U16(2),
        HashPart::U32(3),
        HashPart::U64(4),
        HashPart::U128(5),
        HashPart::Usize(6),
        HashPart::Bytes(b"root".to_vec()),
    ];
    let mut h = seeded();
    h.write_u8(1);
    h.write_u16(2);
    h.write_u32(3);
    h.write_u64(4);
    h.write_u128(5);
    h.write_usize(6);
    h.write(b"root");
    assert_eq!(digest_parts(&parts), h.finish());
}

#[test]
fn string_root_id_matches_hash_of_str() {
    // `&str` hashes as its bytes followed by one 0xff byte.
    let id = imm_id(&[HashPart::Bytes(b"main_menu".to_vec()), HashPart::U8(0xff)]);
    let mut h = seeded();
    std::hash::Hash::hash("main_menu", &mut h);
    assert_eq!(id.hash_value(), h.finish());
}

#[test]
fn imm_id_and_new_agree() {
    let parts = [HashPart::Usize(3), HashPart::Bytes(vec![1, 2, 3])];
    assert_eq!(imm_id(&parts), ImmId::new(&parts));
}

#[test]
fn with_prepends_parent_id() {
    let parent = ImmId::from_hash(11);
    let child = parent.with(&[HashPart::U64(5)]);
    let mut h = seeded();
    h.write_u64(11);
    h.write_u64(5);
    assert_eq!(child.hash_value(), h.finish());
    assert_eq!(child, ImmId::new(&[HashPart::U64(11), HashPart::U64(5)]));
    assert_ne!(child, parent);
}

#[test]
fn from_iter_concatenates_items() {
    let items = vec![vec![HashPart::U32(1)], vec![HashPart::U32(2), HashPart::U8(3)]];
    let id = ImmId::from_iter(&items);
    assert_eq!(id, ImmId::new(&[HashPart::U32(1), HashPart::U32(2), HashPart::U8(3)]));
    assert_eq!(digest_items(&items), id.hash_value());
}

#[test]
fn digest_with_prefix_is_concatenation() {
    let a = [HashPart::U64(1)];
    let b = [HashPart::U16(2)];
    assert_eq!(digest_with_prefix(&a, &b), digest_parts(&[HashPart::U64(1), HashPart::U16(2)]));
}

#[test]
fn from_hash_round_trips() {
    assert_eq!(ImmId::from_hash(42).hash_value(), 42);
    assert_eq!(ImmId::from_hash(42).hash_part(), HashPart::U64(42));
}

#[test]
fn auto_ids_use_prefix_and_index_and_advance_counter() {
    let mut current = Current::root(ImmId::from_hash(100));
    let first = ImmIdBuilder::Auto.resolve(&mut current);
    assert_eq!(current.idx, 1);
    let second = ImmIdBuilder::Auto.resolve(&mut current);
    assert_eq!(current.idx, 2);
    assert_ne!(first, second);
    let mut h = seeded();
    h.write_u64(100);
    h.write_i32(813754928);
    h.write_usize(0);
    assert_eq!(first.hash_value(), h.finish());
    assert_eq!(AUTO_UNIQUE_PREFIX, 813754928);
}

#[test]
fn hierarchy_ids_do_not_depend_on_siblings() {
    let parent = ImmId::from_hash(100);
    let child = ImmId::from_hash(5);
    let mut a = Current::root(parent);
    let mut b = Current { id: parent, entity: None, idx: 17 };
    let ia = ImmIdBuilder::Hierarchy(child).resolve(&mut a);
    let ib = ImmIdBuilder::Hierarchy(child).resolve(&mut b);
    assert_eq!(ia, ib);
    assert_eq!(a.idx, 0);
    assert_eq!(b.idx, 17);
    assert_eq!(ia, parent.with(&[child.hash_part()]));
}

#[test]
fn unique_ids_are_used_as_given() {
    let given = ImmId::from_hash(9);
    let mut current = Current {
        id: ImmId::from_hash(1),
        entity: Some(CurrentEntity { entity: 3, will_be_spawned: false }),
        idx: 4,
    };
    assert_eq!(ImmIdBuilder::Unique(given).resolve(&mut current), given);
    assert_eq!(current.idx, 4);
}

#[test]
fn hotpatch_counter_changes_root_ids() {
    let mut counter = HotpatchingCounter::new();
    assert_eq!(counter.hotpatch(), 0);
    let root = ImmId::from_hash(77);
    let before = counter.root_id(root);
    counter.record_hotpatch();
    assert_eq!(counter.hotpatch(), 1);
    let after = counter.root_id(root);
    assert_ne!(before, after);
    let mut h = seeded();
    h.write_u64(77);
    h.write_u32(1);
    assert_eq!(after.hash_value(), h.finish());
}

fn build_frame(parent: ImmId) -> Vec<ImmId> {
    let mut scope = Current::root(parent);
    let builders = [
        ImmIdBuilder::Auto,
        ImmIdBuilder::Hierarchy(ImmId::from_hash(5)),
        ImmIdBuilder::Auto,
        ImmIdBuilder::Unique(ImmId::from_hash(9)),
        ImmIdBuilder::Auto,
    ];
    builders.iter().map(|b| b.resolve(&mut scope)).collect()
}

#[test]
fn kth_auto_child_gets_index_k() {
    let parent = ImmId::from_hash(100);
    let ids = build_frame(parent);
    let auto = |k: usize| parent.with(&[HashPart::U32(AUTO_UNIQUE_PREFIX), HashPart::Usize(k)]);
    assert_eq!(ids[0], auto(0));
    assert_eq!(ids[1], parent.with(&[ImmId::from_hash(5).hash_part()]));
    assert_eq!(ids[2], auto(1));
    assert_eq!(ids[3], ImmId::from_hash(9));
    assert_eq!(ids[4], auto(2));
    // the next frame builds the same children and gets the same ids
    assert_eq!(build_frame(parent), ids);
}

#[test]
fn hotpatch_counter_counts_every_hotpatch() {
    let mut counter = HotpatchingCounter::new();
    for n in 1..=5u32 {
        counter.record_hotpatch();
        assert_eq!(counter.hotpatch(), n);
        assert_eq!(counter.hotpatch(), n);
    }
}
