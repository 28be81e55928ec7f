//! Unique ids of immediate mode entities.
use crate::hashing::{
    digest_items, digest_parts, digest_with_prefix, id_digest, writes_of, writes_of_items,
    HashPart, HashWrite,
};
use crate::tree::Current;
use vstd::prelude::*;

verus! {

/// Unique id for immediate mode entities.
///
/// Ids are used to track entities managed by immediate mode logic.
#[derive(Clone, Copy, Debug, PartialEq, Eq, Structural, Hash)]
pub struct ImmId {
    id: u64,
}

impl View for ImmId {
    type V = u64;

    closed spec fn view(&self) -> u64 {
        self.id
    }
}

/// Two ids are the same exactly when their hash values are.
pub broadcast proof fn lemma_imm_id_view_injective(a: ImmId, b: ImmId)
    ensures
        #[trigger] a@ == #[trigger] b@ <==> a == b,
{
}

/// The writes that hashing an [`ImmId`] makes: its hash value as one 64-bit write.
pub open spec fn id_writes(id: ImmId) -> Seq<HashWrite> {
    seq![HashWrite::U64(id@)]
}

/// Helper function to easily construct [`ImmId`] from the writes of a hashed value.
pub fn imm_id(source: &[HashPart]) -> (r: ImmId)
    ensures
        r@ == id_digest(writes_of(source@)),
{
    ImmId::new(source)
}

impl ImmId {
    /// Construct new id from the writes that hashing the source makes.
    pub fn new(source: &[HashPart]) -> (r: ImmId)
        ensures
            r@ == id_digest(writes_of(source@)),
    {
        ImmId { id: digest_parts(source) }
    }

    /// Combine current unique id with the writes of a hashed child value.
    pub fn with(self, child: &[HashPart]) -> (r: ImmId)
        ensures
            r@ == id_digest(id_writes(self) + writes_of(child@)),
    {
        let prefix = vec![self.hash_part()];
        let r = ImmId { id: digest_with_prefix(prefix.as_slice(), child) };
        proof {
            assert(writes_of(prefix@) =~= id_writes(self));
        }
        r
    }

    /// Initialize id value from hashable elements, each given by its writes.
    pub fn from_iter(items: &Vec<Vec<HashPart>>) -> (r: ImmId)
        ensures
            r@ == id_digest(writes_of_items(items@)),
    {
        ImmId { id: digest_items(items) }
    }

    /// The id whose hash value is `hash`.
    pub fn from_hash(hash: u64) -> (r: ImmId)
        ensures
            r@ == hash,
    {
        ImmId { id: hash }
    }

    /// The hash value of this id.
    pub fn hash_value(self) -> (r: u64)
        ensures
            r == self@,
    {
        self.id
    }

    /// The write that hashing this id makes.
    pub fn hash_part(self) -> (r: HashPart)
        ensures
            r == HashPart::U64(self@),
    {
        HashPart::U64(self.id)
    }
}

/// Prefix that auto generated ids are combined with, written as a 32-bit value.
pub const AUTO_UNIQUE_PREFIX: u32 = 813754928u32;

/// The writes that an auto generated id with index `idx` combines its parent id with.
pub open spec fn auto_writes(idx: usize) -> Seq<HashWrite> {
    seq![HashWrite::U32(AUTO_UNIQUE_PREFIX), HashWrite::Usize(idx)]
}

/// Can be used to construct unique id for new entity
#[derive(Clone, Copy, Debug)]
pub enum ImmIdBuilder {
    /// Use auto generated id
    Auto,
    /// Combine parent node id with provided id
    Hierarchy(ImmId),
    /// Provide truly unique id
    ///
    /// Use with caution. Use only when it is guaranteed
    /// that only one entity with this id will exist.
    Unique(ImmId),
}

/// The id that `builder` resolves to under the parent state `current`.
pub open spec fn resolved_id(builder: ImmIdBuilder, current: Current) -> u64 {
    match builder {
        ImmIdBuilder::Auto => id_digest(id_writes(current.id) + auto_writes(current.idx)),
        ImmIdBuilder::Hierarchy(id) => id_digest(id_writes(current.id) + id_writes(id)),
        ImmIdBuilder::Unique(id) => id@,
    }
}

impl ImmIdBuilder {
    /// Resolve the id of a new child of `current`. Only auto generated ids advance the
    /// parent's child counter.
    pub fn resolve(self, current: &mut Current) -> (r: ImmId)
        requires
            self is Auto ==> old(current).idx < usize::MAX,
        ensures
            r@ == resolved_id(self, *old(current)),
            final(current).id == old(current).id,
            final(current).entity == old(current).entity,
            final(current).idx == (if self is Auto {
                old(current).idx + 1
            } else {
                old(current).idx as int
            }),
    {
        match self {
            ImmIdBuilder::Auto => {
                let child = vec![HashPart::U32(AUTO_UNIQUE_PREFIX), HashPart::Usize(current.idx)];
                let id = current.id.with(child.as_slice());
                proof {
                    assert(writes_of(child@) =~= auto_writes(current.idx));
                }
                current.idx = current.idx + 1;
                id
            },
            ImmIdBuilder::Hierarchy(child_id) => {
                let child = vec![child_id.hash_part()];
                let id = current.id.with(child.as_slice());
                proof {
                    assert(writes_of(child@) =~= id_writes(child_id));
                }
                id
            },
            ImmIdBuilder::Unique(id) => id,
        }
    }
}


/// Combining an id with a child value gives the id of the pair (id, child value): the child's
/// writes follow the id's own write.
pub proof fn law_with_is_id_of_pair(id: ImmId, child: Seq<HashPart>)
    ensures
        writes_of(seq![HashPart::U64(id@)] + child) == id_writes(id) + writes_of(child),
{
    assert(writes_of(seq![HashPart::U64(id@)] + child) =~= id_writes(id) + writes_of(child));
}

/// Auto generated siblings are hashed from different writes: the writes name the child's
/// index among the auto generated children of its parent.
pub proof fn law_auto_ids_from_distinct_writes(parent: ImmId, i: usize, j: usize)
    requires
        i != j,
    ensures
        id_writes(parent) + auto_writes(i) != id_writes(parent) + auto_writes(j),
{
    assert((id_writes(parent) + auto_writes(i))[2] == HashWrite::Usize(i));
    assert((id_writes(parent) + auto_writes(j))[2] == HashWrite::Usize(j));
}

/// An id built with `ch_id` depends only on the parent id and the given id, not on how many
/// auto generated siblings came before it, so it stays stable when siblings come and go.
pub proof fn law_hierarchy_id_independent_of_siblings(id: ImmId, a: Current, b: Current)
    requires
        a.id == b.id,
    ensures
        resolved_id(ImmIdBuilder::Hierarchy(id), a) == resolved_id(ImmIdBuilder::Hierarchy(id), b),
{
}

/// A unique id is used as given, wherever it is built.
pub proof fn law_unique_id_as_given(id: ImmId, current: Current)
    ensures
        resolved_id(ImmIdBuilder::Unique(id), current) == id@,
{
}

/// How many of `builders` are [`ImmIdBuilder::Auto`].
pub open spec fn auto_count(builders: Seq<ImmIdBuilder>) -> nat
    decreases builders.len(),
{
    if builders.len() == 0 {
        0
    } else {
        auto_count(builders.drop_last()) + if builders.last() is Auto {
            1nat
        } else {
            0nat
        }
    }
}

/// `ids` and `states` are what resolving each of `builders` in turn gives, as
/// [`ImmIdBuilder::resolve`] states it: `states[i]` is the scope before the `i`-th call and
/// `states[i + 1]` the scope after it.
pub open spec fn resolve_run(
    builders: Seq<ImmIdBuilder>,
    states: Seq<Current>,
    ids: Seq<ImmId>,
) -> bool {
    &&& states.len() == builders.len() + 1
    &&& ids.len() == builders.len()
    &&& forall|i: int|
        0 <= i < builders.len() ==> {
            &&& (#[trigger] ids[i])@ == resolved_id(builders[i], states[i])
            &&& states[i + 1].id == states[i].id
            &&& states[i + 1].entity == states[i].entity
            &&& states[i + 1].idx == (if builders[i] is Auto {
                states[i].idx + 1
            } else {
                states[i].idx as int
            })
        }
}

/// Over a run of children built in one scope, each child's id is resolved under the scope's
/// own id and the count of auto generated children built before it: the `k`-th auto generated
/// child of a scope that starts from zero gets index `k`, whatever children with given ids are
/// built in between.
pub proof fn law_run_of_children(builders: Seq<ImmIdBuilder>, states: Seq<Current>, ids: Seq<ImmId>)
    requires
        resolve_run(builders, states, ids),
    ensures
        forall|i: int|
            0 <= i <= builders.len() ==> (#[trigger] states[i]).id == states[0].id
                && states[i].idx == states[0].idx + auto_count(builders.take(i)),
        forall|i: int|
            0 <= i < builders.len() && builders[i] is Auto ==> (#[trigger] ids[i])@ == id_digest(
                id_writes(states[0].id) + auto_writes(states[i].idx),
            ),
        forall|i: int|
            0 <= i < builders.len() ==> (#[trigger] ids[i])@ == resolved_id(
                builders[i],
                Current {
                    id: states[0].id,
                    entity: states[i].entity,
                    idx: states[i].idx,
                },
            ),
    decreases builders.len(),
{
    if builders.len() > 0 {
        let n = builders.len() - 1;
        law_run_of_children(builders.drop_last(), states.drop_last(), ids.drop_last());
        assert(states.drop_last()[0] == states[0]);
        assert(ids[n]@ == resolved_id(builders[n], states[n]));
        assert forall|i: int| 0 <= i <= builders.len() implies (#[trigger] states[i]).id
            == states[0].id && states[i].idx == states[0].idx + auto_count(builders.take(i)) by {
            if i < builders.len() {
                assert(states.drop_last()[i] == states[i]);
                assert(builders.drop_last().take(i) =~= builders.take(i));
            } else {
                assert(states.drop_last()[n] == states[n]);
                assert(builders.drop_last().take(n) =~= builders.drop_last());
                assert(builders.take(i) =~= builders);
                assert(auto_count(builders) == auto_count(builders.drop_last()) + if builders[n] is Auto {
                    1nat
                } else {
                    0nat
                });
            }
        }
        assert forall|i: int| 0 <= i < builders.len() implies (#[trigger] ids[i])@ == resolved_id(
            builders[i],
            Current { id: states[0].id, entity: states[i].entity, idx: states[i].idx },
        ) by {
            assert(ids[i]@ == resolved_id(builders[i], states[i]));
        }
    }
}

/// Building the same children in two frames, in scopes with the same id and the same count of
/// auto generated children so far, gives the same ids: each child finds the entity it had.
pub proof fn law_same_children_same_ids(
    builders: Seq<ImmIdBuilder>,
    a: Seq<Current>,
    ids_a: Seq<ImmId>,
    b: Seq<Current>,
    ids_b: Seq<ImmId>,
)
    requires
        resolve_run(builders, a, ids_a),
        resolve_run(builders, b, ids_b),
        a[0].id == b[0].id,
        a[0].idx == b[0].idx,
    ensures
        ids_a == ids_b,
{
    law_run_of_children(builders, a, ids_a);
    law_run_of_children(builders, b, ids_b);
    assert forall|i: int| 0 <= i < builders.len() implies ids_a[i] == ids_b[i] by {
        assert(a[i].idx == b[i].idx);
        lemma_imm_id_view_injective(ids_a[i], ids_b[i]);
    }
    assert(ids_a =~= ids_b);
}

} // verus!
