//! Counting of hotpatches, so that ids of trees built after a hotpatch differ.
use crate::hashing::{id_digest, HashWrite, HashPart};
use crate::id::ImmId;
use vstd::prelude::*;

verus! {

/// Keeps count of how many times hotpatching has been applied.
pub struct HotpatchingCounter {
    hotpatch: u32,
}

impl View for HotpatchingCounter {
    type V = u32;

    closed spec fn view(&self) -> u32 {
        self.hotpatch
    }
}

impl HotpatchingCounter {
    /// Counter before any hotpatch.
    pub fn new() -> (r: Self)
        ensures
            r@ == 0,
    {
        HotpatchingCounter { hotpatch: 0 }
    }

    /// Returns how many times hotpatching has been applied.
    pub fn hotpatch(&self) -> (r: u32)
        ensures
            r == self@,
    {
        self.hotpatch
    }

    /// Count one more hotpatch.
    pub fn record_hotpatch(&mut self)
        requires
            old(self)@ < u32::MAX,
        ensures
            final(self)@ == old(self)@ + 1,
    {
        self.hotpatch = self.hotpatch + 1;
    }

    /// Root id combined with the number of hotpatches applied: the id of the pair.
    pub fn root_id(&self, id: ImmId) -> (r: ImmId)
        ensures
            r@ == id_digest(seq![HashWrite::U64(id@), HashWrite::U32(self@)]),
    {
        let parts = vec![id.hash_part(), HashPart::U32(self.hotpatch)];
        let r = ImmId::new(parts.as_slice());
        proof {
            assert(crate::hashing::writes_of(parts@) =~= seq![HashWrite::U64(id@), HashWrite::U32(self@)]);
        }
        r
    }
}

/// A counter made by [`HotpatchingCounter::new`] and then counted up once per hotpatch with
/// [`HotpatchingCounter::record_hotpatch`], as their contracts state each step: after `n`
/// hotpatches it reports `n`.
pub proof fn law_counts_hotpatches(counters: Seq<HotpatchingCounter>)
    requires
        counters.len() > 0,
        counters[0]@ == 0,
        forall|i: int|
            0 <= i < counters.len() - 1 ==> (#[trigger] counters[i + 1])@ == counters[i]@ + 1,
    ensures
        forall|n: int| 0 <= n < counters.len() ==> (#[trigger] counters[n])@ == n,
{
    assert forall|n: int| 0 <= n < counters.len() implies (#[trigger] counters[n])@ == n by {
        lemma_count_at(counters, n);
    }
}

proof fn lemma_count_at(counters: Seq<HotpatchingCounter>, n: int)
    requires
        0 <= n < counters.len(),
        counters[0]@ == 0,
        forall|i: int|
            0 <= i < counters.len() - 1 ==> (#[trigger] counters[i + 1])@ == counters[i]@ + 1,
    ensures
        counters[n]@ == n,
    decreases n,
{
    if n > 0 {
        lemma_count_at(counters, n - 1);
        assert(counters[(n - 1) + 1]@ == counters[n - 1]@ + 1);
    }
}

} // verus!
