use std::any::TypeId;
use std::collections::HashSet;

use bevy_immediate::cached_hash::CachedHash;
use bevy_immediate::entity_mapping::ImmediateModeEntityMapping;
use bevy_immediate::hashing::HashPart;
use bevy_immediate::id::{imm_id, ImmId};
use bevy_immediate::utils::ImmLocalHashMemoryHelper;

struct Marker;
struct OtherMarker;

#[test]
fn mapping_add_get_remove() {
    let mut m = ImmediateModeEntityMapping::<()>::new();
    let a = ImmId::from_hash(1);
    let b = ImmId::from_hash(2);
    assert_eq!(m.get(a), None);
    assert_eq!(m.marker_added(a, 10), None);
    assert_eq!(m.get(a), Some(10));
    assert_eq!(m.get(b), None);
    // id collision reports the entity that had the id before
    assert_eq!(m.marker_added(a, 11), Some(10));
    assert_eq!(m.get(a), Some(11));
    m.marker_added(b, 20);
    m.marker_removed(a);
    assert_eq!(m.get(a), None);
    assert_eq!(m.get(b), Some(20));
    m.marker_removed(a);
    assert_eq!(m.get(a), None);
}

#[test]
fn cache_reports_changes() {
    let mut c = CachedHash::<()>::new();
    let key = ImmId::from_hash(1);
    let v1 = ImmId::from_hash(100);
    let v2 = ImmId::from_hash(200);
    assert_eq!(c.get(5, key), None);
    assert!(c.cache(5, key, v1));
    assert!(!c.cache(5, key, v1));
    assert_eq!(c.get(5, key), Some(v1));
    assert!(c.cache(5, key, v2));
    assert_eq!(c.get(5, key), Some(v2));
    assert_eq!(c.get(6, key), None);
    assert_eq!(c.remove(5, key), Some(v2));
    assert_eq!(c.get(5, key), None);
    assert_eq!(c.remove(5, key), None);
}

#[test]
fn cache_by_type_is_separate_from_ids() {
    let mut c = CachedHash::<()>::new();
    let v = ImmId::from_hash(7);
    let t = TypeId::of::<Marker>();
    assert!(c.cache_typ(1, t, v));
    assert!(!c.cache_typ(1, t, v));
    assert_eq!(c.get_typ(1, t), Some(v));
    assert_eq!(c.get_typ(1, TypeId::of::<OtherMarker>()), None);
    assert_eq!(c.get_typ(2, t), None);
    assert_eq!(c.remove_typ(1, t), Some(v));
    assert_eq!(c.get_typ(1, t), None);
}

#[test]
fn clean_drops_values_of_gone_entities() {
    let mut c = CachedHash::<()>::new();
    let key = ImmId::from_hash(1);
    let v = ImmId::from_hash(2);
    c.cache(1, key, v);
    c.cache(2, key, v);
    c.cache_typ(2, TypeId::of::<Marker>(), v);
    let alive: HashSet<u64> = [1u64].into_iter().collect();
    c.clean(&alive);
    assert_eq!(c.get(1, key), Some(v));
    assert_eq!(c.get(2, key), None);
    assert_eq!(c.get_typ(2, TypeId::of::<Marker>()), None);
}

#[test]
fn memory_helper_starts_from_default() {
    let mut c = CachedHash::<()>::new();
    let key = [HashPart::Bytes(b"open".to_vec())];
    let mut h = ImmLocalHashMemoryHelper::<bool>::new(&c, 3, &key, &[HashPart::U8(0)]);
    assert!(h.is_stored(&[HashPart::U8(0)]));
    assert!(!h.is_stored(&[HashPart::U8(1)]));
    h.finalize(&mut c, 3);
    // the default is written once because nothing was stored
    assert_eq!(c.get(3, imm_id(&key)), Some(imm_id(&[HashPart::U8(0)])));
}

#[test]
fn memory_helper_round_trip() {
    let mut c = CachedHash::<()>::new();
    let key = [HashPart::U64(1)];
    let mut h = ImmLocalHashMemoryHelper::<bool>::new(&c, 3, &key, &[HashPart::U8(0)]);
    h.store(&[HashPart::U8(1)]);
    assert!(h.is_stored(&[HashPart::U8(1)]));
    h.finalize(&mut c, 3);
    let mut next = ImmLocalHashMemoryHelper::<bool>::new(&c, 3, &key, &[HashPart::U8(0)]);
    assert!(next.is_stored(&[HashPart::U8(1)]));
    // another entity keeps its own memory
    let mut other = ImmLocalHashMemoryHelper::<bool>::new(&c, 4, &key, &[HashPart::U8(0)]);
    assert!(other.is_stored(&[HashPart::U8(0)]));
}

#[test]
fn memory_helper_unchanged_value_is_not_rewritten() {
    let mut c = CachedHash::<()>::new();
    let key = [HashPart::U64(1)];
    let stored = imm_id(&[HashPart::U8(1)]);
    c.cache(3, imm_id(&key), stored);
    let mut h = ImmLocalHashMemoryHelper::<bool>::new(&c, 3, &key, &[HashPart::U8(0)]);
    assert!(h.is_stored(&[HashPart::U8(1)]));
    h.store(&[HashPart::U8(1)]);
    // removing the entry shows whether finalize writes it back
    c.remove(3, imm_id(&key));
    h.finalize(&mut c, 3);
    assert_eq!(c.get(3, imm_id(&key)), None);
}

#[test]
fn memory_helper_many_stores_last_wins() {
    let mut c = CachedHash::<()>::new();
    let key = [HashPart::U64(9)];
    let stored = imm_id(&[HashPart::U8(1)]);
    c.cache(3, imm_id(&key), stored);
    let mut h = ImmLocalHashMemoryHelper::<u8>::new(&c, 3, &key, &[HashPart::U8(0)]);
    h.store(&[HashPart::U8(2)]);
    h.store(&[HashPart::U8(3)]);
    h.store(&[HashPart::U8(1)]);
    // the value went back to what was stored, but it differed in between, so it is written
    c.remove(3, imm_id(&key));
    h.finalize(&mut c, 3);
    assert_eq!(c.get(3, imm_id(&key)), Some(stored));
    let mut next = ImmLocalHashMemoryHelper::<u8>::new(&c, 3, &key, &[HashPart::U8(0)]);
    assert!(next.is_stored(&[HashPart::U8(1)]));
    assert!(!next.is_stored(&[HashPart::U8(3)]));
}

#[test]
fn memory_helper_repeated_same_store_keeps_entry() {
    let mut c = CachedHash::<()>::new();
    let key = [HashPart::U64(9)];
    c.cache(3, imm_id(&key), imm_id(&[HashPart::U8(4)]));
    let mut h = ImmLocalHashMemoryHelper::<u8>::new(&c, 3, &key, &[HashPart::U8(0)]);
    h.store(&[HashPart::U8(4)]);
    h.store(&[HashPart::U8(4)]);
    c.remove(3, imm_id(&key));
    h.finalize(&mut c, 3);
    assert_eq!(c.get(3, imm_id(&key)), None);
}
