//! Hashing of immediate mode ids with a fixed-seed `ahash` hasher.
//!
//! A value is hashed by the sequence of writes that its `Hash` impl makes
//! into a hasher. The library replays such a sequence into an `ahash::AHasher`
//! built from fixed seeds, so the same writes always give the same digest.
use std::hash::BuildHasher;
use std::hash::Hasher;
use vstd::prelude::*;

verus! {

/// One write into a hasher, as a `Hash` impl makes it.
#[derive(Clone, Debug, PartialEq, Eq)]
pub enum HashPart {
    U8(u8),
    U16(u16),
    U32(u32),
    U64(u64),
    U128(u128),
    Usize(usize),
    Bytes(Vec<u8>),
}

/// What a [`HashPart`] writes, as a mathematical value.
pub enum HashWrite {
    U8(u8),
    U16(u16),
    U32(u32),
    U64(u64),
    U128(u128),
    Usize(usize),
    Bytes(Seq<u8>),
}

impl View for HashPart {
    type V = HashWrite;

    open spec fn view(&self) -> HashWrite {
        match self {
            HashPart::U8(x) => HashWrite::U8(*x),
            HashPart::U16(x) => HashWrite::U16(*x),
            HashPart::U32(x) => HashWrite::U32(*x),
            HashPart::U64(x) => HashWrite::U64(*x),
            HashPart::U128(x) => HashWrite::U128(*x),
            HashPart::Usize(x) => HashWrite::Usize(*x),
            HashPart::Bytes(b) => HashWrite::Bytes(b@),
        }
    }
}


/// The seeds of the hasher that immediate mode ids are computed with.
pub open spec fn id_seeds() -> (u64, u64, u64, u64) {
    (1u64, 2u64, 3u64, 4u64)
}

/// The id digest of a sequence of writes: what a hasher keyed by [`id_seeds`]
/// returns from `finish` after these writes.
pub open spec fn id_digest(writes: Seq<HashWrite>) -> u64 {
    ahash_digest(id_seeds(), writes)
}

/// The writes of a sequence of parts, in order.
pub open spec fn writes_of(parts: Seq<HashPart>) -> Seq<HashWrite> {
    Seq::new(parts.len(), |i: int| parts[i]@)
}

/// The writes of a sequence of items, each given by its own parts, one item after the other.
pub open spec fn writes_of_items(items: Seq<Vec<HashPart>>) -> Seq<HashWrite>
    decreases items.len(),
{
    if items.len() == 0 {
        Seq::empty()
    } else {
        writes_of_items(items.drop_last()) + writes_of(items.last()@)
    }
}

#[verifier::external_type_specification]
#[verifier::external_body]
pub struct ExAHasher(ahash::AHasher);

/// The four seeds that an `ahash::AHasher` was keyed with.
pub uninterp spec fn hasher_seeds(h: ahash::AHasher) -> (u64, u64, u64, u64);

/// The writes made into an `ahash::AHasher` since it was built, in order.
pub uninterp spec fn hasher_writes(h: ahash::AHasher) -> Seq<HashWrite>;

/// What `ahash::AHasher::finish` returns, in the build of `ahash` linked into this program, for a
/// hasher keyed by `seeds` after `writes`. `ahash` documents that hashers built from
/// `RandomState`s with the same seeds give the same digest for the same writes, and that digests
/// may differ between machines and versions: this names the digest of this build, not a value
/// fixed across builds.
pub uninterp spec fn ahash_digest(seeds: (u64, u64, u64, u64), writes: Seq<HashWrite>) -> u64;

/// Calls `ahash::RandomState::with_seeds(k0, k1, k2, k3)` and `BuildHasher::build_hasher` on it.
/// Claimed: the hasher is keyed by the four seeds and has had nothing written into it.
#[verifier::external_body]
fn hasher_with_seeds(k0: u64, k1: u64, k2: u64, k3: u64) -> (h: ahash::AHasher)
    ensures
        hasher_seeds(h) == (k0, k1, k2, k3),
        hasher_writes(h) == Seq::<HashWrite>::empty(),
{
    ahash::RandomState::with_seeds(k0, k1, k2, k3).build_hasher()
}

/// Calls `Hasher::write_u8` on an `ahash::AHasher`. Claimed: the write is appended, the seeds stay.
#[verifier::external_body]
fn hasher_write_u8(h: &mut ahash::AHasher, x: u8)
    ensures
        hasher_seeds(*final(h)) == hasher_seeds(*old(h)),
        hasher_writes(*final(h)) == hasher_writes(*old(h)).push(HashWrite::U8(x)),
{
    h.write_u8(x)
}

/// Calls `Hasher::write_u16` on an `ahash::AHasher`. Claimed: the write is appended, the seeds stay.
#[verifier::external_body]
fn hasher_write_u16(h: &mut ahash::AHasher, x: u16)
    ensures
        hasher_seeds(*final(h)) == hasher_seeds(*old(h)),
        hasher_writes(*final(h)) == hasher_writes(*old(h)).push(HashWrite::U16(x)),
{
    h.write_u16(x)
}

/// Calls `Hasher::write_u32` on an `ahash::AHasher`. Claimed: the write is appended, the seeds stay.
#[verifier::external_body]
fn hasher_write_u32(h: &mut ahash::AHasher, x: u32)
    ensures
        hasher_seeds(*final(h)) == hasher_seeds(*old(h)),
        hasher_writes(*final(h)) == hasher_writes(*old(h)).push(HashWrite::U32(x)),
{
    h.write_u32(x)
}

/// Calls `Hasher::write_u64` on an `ahash::AHasher`. Claimed: the write is appended, the seeds stay.
#[verifier::external_body]
fn hasher_write_u64(h: &mut ahash::AHasher, x: u64)
    ensures
        hasher_seeds(*final(h)) == hasher_seeds(*old(h)),
        hasher_writes(*final(h)) == hasher_writes(*old(h)).push(HashWrite::U64(x)),
{
    h.write_u64(x)
}

/// Calls `Hasher::write_u128` on an `ahash::AHasher`. Claimed: the write is appended, the seeds stay.
#[verifier::external_body]
fn hasher_write_u128(h: &mut ahash::AHasher, x: u128)
    ensures
        hasher_seeds(*final(h)) == hasher_seeds(*old(h)),
        hasher_writes(*final(h)) == hasher_writes(*old(h)).push(HashWrite::U128(x)),
{
    h.write_u128(x)
}

/// Calls `Hasher::write_usize` on an `ahash::AHasher`. Claimed: the write is appended, the seeds stay.
#[verifier::external_body]
fn hasher_write_usize(h: &mut ahash::AHasher, x: usize)
    ensures
        hasher_seeds(*final(h)) == hasher_seeds(*old(h)),
        hasher_writes(*final(h)) == hasher_writes(*old(h)).push(HashWrite::Usize(x)),
{
    h.write_usize(x)
}

/// Calls `Hasher::write` on an `ahash::AHasher`. Claimed: the bytes are appended as one write,
/// the seeds stay.
#[verifier::external_body]
fn hasher_write_bytes(h: &mut ahash::AHasher, bytes: &[u8])
    ensures
        hasher_seeds(*final(h)) == hasher_seeds(*old(h)),
        hasher_writes(*final(h)) == hasher_writes(*old(h)).push(HashWrite::Bytes(bytes@)),
{
    h.write(bytes)
}

/// Calls `Hasher::finish` on an `ahash::AHasher`. Claimed: the digest is [`ahash_digest`] of the
/// hasher's seeds and writes.
#[verifier::external_body]
fn hasher_finish(h: &ahash::AHasher) -> (r: u64)
    ensures
        r == ahash_digest(hasher_seeds(*h), hasher_writes(*h)),
{
    h.finish()
}

/// A hasher keyed by the id seeds, with nothing written yet.
fn id_hasher() -> (h: ahash::AHasher)
    ensures
        hasher_seeds(h) == id_seeds(),
        hasher_writes(h) == Seq::<HashWrite>::empty(),
{
    hasher_with_seeds(1, 2, 3, 4)
}

/// Writes one part into the hasher.
fn write_part(h: &mut ahash::AHasher, part: &HashPart)
    ensures
        hasher_seeds(*final(h)) == hasher_seeds(*old(h)),
        hasher_writes(*final(h)) == hasher_writes(*old(h)).push(part@),
{
    match part {
        HashPart::U8(x) => hasher_write_u8(h, *x),
        HashPart::U16(x) => hasher_write_u16(h, *x),
        HashPart::U32(x) => hasher_write_u32(h, *x),
        HashPart::U64(x) => hasher_write_u64(h, *x),
        HashPart::U128(x) => hasher_write_u128(h, *x),
        HashPart::Usize(x) => hasher_write_usize(h, *x),
        HashPart::Bytes(b) => hasher_write_bytes(h, b.as_slice()),
    }
}

/// Writes the parts into the hasher, in order.
fn write_parts(h: &mut ahash::AHasher, parts: &[HashPart])
    ensures
        hasher_seeds(*final(h)) == hasher_seeds(*old(h)),
        hasher_writes(*final(h)) == hasher_writes(*old(h)) + writes_of(parts@),
{
    let n = parts.len();
    let mut i: usize = 0;
    while i < n
        invariant
            n == parts@.len(),
            i <= n,
            hasher_seeds(*h) == hasher_seeds(*old(h)),
            hasher_writes(*h) == hasher_writes(*old(h)) + writes_of(parts@.take(i as int)),
        decreases n - i,
    {
        write_part(h, &parts[i]);
        proof {
            assert(writes_of(parts@.take(i + 1)) =~= writes_of(parts@.take(i as int)).push(
                parts@[i as int]@,
            ));
        }
        i = i + 1;
    }
    proof {
        assert(parts@.take(n as int) =~= parts@);
    }
}

/// The id digest of the writes of `prefix` followed by those of `parts`.
pub fn digest_with_prefix(prefix: &[HashPart], parts: &[HashPart]) -> (r: u64)
    ensures
        r == id_digest(writes_of(prefix@) + writes_of(parts@)),
{
    let mut h = id_hasher();
    write_parts(&mut h, prefix);
    write_parts(&mut h, parts);
    proof {
        assert(Seq::<HashWrite>::empty() + writes_of(prefix@) =~= writes_of(prefix@));
    }
    hasher_finish(&h)
}

/// The id digest of the writes of the parts.
pub fn digest_parts(parts: &[HashPart]) -> (r: u64)
    ensures
        r == id_digest(writes_of(parts@)),
{
    let mut h = id_hasher();
    write_parts(&mut h, parts);
    proof {
        assert(Seq::<HashWrite>::empty() + writes_of(parts@) =~= writes_of(parts@));
    }
    hasher_finish(&h)
}

/// The id digest of the writes of the items, one item after the other.
pub fn digest_items(items: &Vec<Vec<HashPart>>) -> (r: u64)
    ensures
        r == id_digest(writes_of_items(items@)),
{
    let mut h = id_hasher();
    let n = items.len();
    let mut i: usize = 0;
    while i < n
        invariant
            n == items@.len(),
            i <= n,
            hasher_seeds(h) == id_seeds(),
            hasher_writes(h) == writes_of_items(items@.take(i as int)),
        decreases n - i,
    {
        write_parts(&mut h, items[i].as_slice());
        proof {
            assert(items@.take(i + 1).drop_last() =~= items@.take(i as int));
        }
        i = i + 1;
    }
    proof {
        assert(items@.take(n as int) =~= items@);
    }
    hasher_finish(&h)
}

/// The writes of a run of items are every item's writes, one after the other: the items' writes
/// flattened, with nothing left out and nothing added.
pub proof fn law_item_writes_flatten(items: Seq<Vec<HashPart>>)
    ensures
        writes_of_items(items) == items.map_values(|it: Vec<HashPart>| writes_of(it@)).flatten(),
{
    lemma_item_writes_flatten_alt(items);
    items.map_values(|it: Vec<HashPart>| writes_of(it@)).lemma_flatten_and_flatten_alt_are_equivalent();
}

proof fn lemma_item_writes_flatten_alt(items: Seq<Vec<HashPart>>)
    ensures
        writes_of_items(items) == items.map_values(|it: Vec<HashPart>| writes_of(it@)).flatten_alt(),
    decreases items.len(),
{
    if items.len() > 0 {
        lemma_item_writes_flatten_alt(items.drop_last());
        let f = |it: Vec<HashPart>| writes_of(it@);
        assert(items.map_values(f).drop_last() =~= items.drop_last().map_values(f));
    }
}

/// Hashing two runs of items one after the other writes the first run's writes and then the
/// second's, so every item, the last ones included, reaches the digest.
pub proof fn law_item_writes_append(a: Seq<Vec<HashPart>>, b: Seq<Vec<HashPart>>)
    ensures
        writes_of_items(a + b) == writes_of_items(a) + writes_of_items(b),
        writes_of_items(a + b).len() == writes_of_items(a).len() + writes_of_items(b).len(),
    decreases b.len(),
{
    if b.len() == 0 {
        assert(a + b =~= a);
        assert(writes_of_items(a) + writes_of_items(b) =~= writes_of_items(a));
    } else {
        law_item_writes_append(a, b.drop_last());
        assert((a + b).drop_last() =~= a + b.drop_last());
        assert((a + b).last() == b.last());
        assert(writes_of_items(a) + writes_of_items(b) =~= writes_of_items(a) + writes_of_items(
            b.drop_last(),
        ) + writes_of(b.last()@));
    }
}

/// A single item writes exactly its own parts.
pub proof fn law_single_item_writes(item: Vec<HashPart>)
    ensures
        writes_of_items(seq![item]) == writes_of(item@),
{
    let items = seq![item];
    assert(items.drop_last() =~= Seq::<Vec<HashPart>>::empty());
    assert(writes_of_items(items.drop_last()) == Seq::<HashWrite>::empty());
    assert(items.last() == item);
    assert(Seq::<HashWrite>::empty() + writes_of(item@) =~= writes_of(item@));
}

} // verus!
