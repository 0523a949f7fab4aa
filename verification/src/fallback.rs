//! Bounded, ordered, duplicate-free chains of fallback families.

use crate::ids::FamilyId;
use vstd::prelude::*;
use vstd::slice::slice_subrange;

verus! {

/// The most families one fallback chain holds.
pub const MAX_FALLBACKS: usize = 8;

/// Whether `ids` can be what a chain holds: no more families than the
/// capacity, and none twice.
pub open spec fn is_chain(ids: Seq<FamilyId>) -> bool {
    ids.len() <= MAX_FALLBACKS && ids.no_duplicates()
}

/// An ordered set of at most `MAX_FALLBACKS` families.
#[derive(Clone, Copy)]
pub struct Fallbacks {
    ids: [FamilyId; MAX_FALLBACKS],
    len: usize,
}

impl View for Fallbacks {
    type V = Seq<FamilyId>;

    closed spec fn view(&self) -> Seq<FamilyId> {
        self.ids@.take(self.len as int)
    }
}

impl Default for Fallbacks {
    fn default() -> (chain: Self)
        ensures
            chain@ == Seq::<FamilyId>::empty(),
    {
        Fallbacks::new()
    }
}

impl Fallbacks {
    #[verifier::type_invariant]
    closed spec fn inv(self) -> bool {
        &&& self.len <= MAX_FALLBACKS
        &&& self.ids@.take(self.len as int).no_duplicates()
    }

    /// An empty chain.
    pub fn new() -> (chain: Self)
        ensures
            chain@ == Seq::<FamilyId>::empty(),
    {
        Fallbacks { ids: [FamilyId(0); MAX_FALLBACKS], len: 0 }
    }

    /// The number of families in the chain.
    pub fn len(&self) -> (n: usize)
        ensures
            n == self@.len(),
            is_chain(self@),
    {
        proof {
            use_type_invariant(self);
        }
        self.len
    }

    /// The families of the chain, in the order in which they were pushed.
    pub fn get(&self) -> (ids: &[FamilyId])
        ensures
            ids@ == self@,
            is_chain(ids@),
    {
        proof {
            use_type_invariant(self);
        }
        slice_subrange(self.ids.as_slice(), 0, self.len)
    }

    /// Whether `id` is in the chain.
    pub fn contains(&self, id: FamilyId) -> (found: bool)
        ensures
            found == self@.contains(id),
    {
        proof {
            use_type_invariant(self);
        }
        let mut i: usize = 0;
        while i < self.len
            invariant
                i <= self.len <= MAX_FALLBACKS,
                forall|j: int| 0 <= j < i ==> self@[j] != id,
            decreases self.len - i,
        {
            if self.ids[i] == id {
                assert(self@[i as int] == id);
                return true;
            }
            i += 1;
        }
        false
    }

    /// Appends `id` unless the chain is full or already holds it, and says
    /// whether it was appended.
    pub fn push(&mut self, id: FamilyId) -> (pushed: bool)
        ensures
            pushed == (old(self)@.len() < MAX_FALLBACKS && !old(self)@.contains(id)),
            pushed ==> final(self)@ == old(self)@.push(id),
            !pushed ==> final(self)@ == old(self)@,
            is_chain(final(self)@),
    {
        proof {
            use_type_invariant(&*self);
        }
        if self.len == MAX_FALLBACKS || self.contains(id) {
            return false;
        }
        let n = self.len;
        proof {
            let kept = self.ids@.take(n as int);
            let next = self.ids@.update(n as int, id);
            assert(next.take(n as int) =~= kept);
            assert(next.take(n + 1) =~= kept.push(id));
            assert(kept.push(id).no_duplicates()) by {
                assert forall|i: int, j: int|
                    0 <= i < j < n + 1 implies kept.push(id)[i] != kept.push(id)[j] by {
                    if j == n {
                        assert(kept.contains(kept[i]));
                    }
                }
            }
        }
        self.ids[n] = id;
        self.len = n + 1;
        true
    }
}

/// How many leading families of `hits` a chain takes when they are pushed
/// in order: the walk ends at the first family that the chain refuses,
/// because the chain is full or already holds it.
pub open spec fn chain_len(hits: Seq<FamilyId>) -> nat
    decreases hits.len(),
{
    if hits.len() == 0 {
        0
    } else {
        let before = chain_len(hits.drop_last());
        if before == hits.len() - 1 && before < MAX_FALLBACKS && !hits.drop_last().contains(
            hits.last(),
        ) {
            before + 1
        } else {
            before
        }
    }
}

/// The chain that pushing `hits` in order builds.
pub open spec fn chain(hits: Seq<FamilyId>) -> Seq<FamilyId> {
    hits.take(chain_len(hits) as int)
}

/// A chain is a prefix of what was pushed, within the capacity and free of
/// repetitions.
pub proof fn lemma_chain_bounded(hits: Seq<FamilyId>)
    ensures
        chain_len(hits) <= hits.len(),
        chain(hits).len() == chain_len(hits),
        is_chain(chain(hits)),
    decreases hits.len(),
{
    if hits.len() > 0 {
        let front = hits.drop_last();
        lemma_chain_bounded(front);
        let before = chain_len(front);
        assert(hits.take(before as int) =~= front.take(before as int));
        if chain_len(hits) == before + 1 {
            assert(front.take(before as int) =~= front);
            assert(hits.take(before as int + 1) =~= front.push(hits.last()));
            assert forall|i: int, j: int| 0 <= i < j < before + 1 implies chain(hits)[i] != chain(
                hits,
            )[j] by {
                if j == before {
                    assert(front.contains(front[i]));
                }
            }
        }
    }
}

/// A chain ends only where it must: it holds all of `hits`, or it is full,
/// or the next family is one it already holds.
pub proof fn lemma_chain_maximal(hits: Seq<FamilyId>)
    ensures
        chain_len(hits) == hits.len() || chain_len(hits) == MAX_FALLBACKS || chain(hits).contains(
            hits[chain_len(hits) as int],
        ),
    decreases hits.len(),
{
    lemma_chain_bounded(hits);
    if hits.len() > 0 {
        let front = hits.drop_last();
        lemma_chain_maximal(front);
        lemma_chain_bounded(front);
        let before = chain_len(front);
        assert(hits.take(before as int) =~= front.take(before as int));
        if chain_len(hits) == before && before < MAX_FALLBACKS {
            if before == front.len() {
                assert(front.take(before as int) =~= front);
                assert(front.contains(hits.last()));
            } else {
                let k = choose|k: int| 0 <= k < before && chain(front)[k] == front[before as int];
                assert(chain(hits)[k] == hits[before as int]);
            }
        }
    }
}

/// Pushing one more family extends the chain by it, unless the chain had
/// already ended or refuses the family.
pub proof fn lemma_chain_push(hits: Seq<FamilyId>, id: FamilyId)
    ensures
        chain(hits.push(id)) == if chain_len(hits) == hits.len() && hits.len() < MAX_FALLBACKS
            && !hits.contains(id) {
            hits.push(id)
        } else {
            chain(hits)
        },
{
    lemma_chain_bounded(hits);
    let all = hits.push(id);
    assert(all.drop_last() =~= hits);
    if chain_len(all) == chain_len(hits) + 1 {
        assert(all.take(chain_len(all) as int) =~= all);
    } else {
        assert(all.take(chain_len(hits) as int) =~= hits.take(chain_len(hits) as int));
    }
}

/// Once a chain has ended before the end of `hits`, or is full, nothing
/// that follows changes it.
pub proof fn lemma_chain_ended(hits: Seq<FamilyId>, more: Seq<FamilyId>)
    requires
        chain_len(hits) < hits.len() || chain_len(hits) == MAX_FALLBACKS,
    ensures
        chain(hits + more) == chain(hits),
    decreases more.len(),
{
    lemma_chain_bounded(hits);
    if more.len() == 0 {
        assert(hits + more =~= hits);
    } else {
        lemma_chain_ended(hits, more.drop_last());
        let front = hits + more.drop_last();
        assert((hits + more).drop_last() =~= front);
        lemma_chain_bounded(front);
        assert(chain_len(front) == chain_len(hits));
        assert(chain_len(hits + more) == chain_len(hits));
        assert((hits + more).take(chain_len(hits) as int) =~= hits.take(chain_len(hits) as int));
    }
}

} // verus!
