//! Registry of live subscribers.
//!
//! The registry holds the identities of the currently connected event
//! sinks. Registration hands out a fresh identity, so a subscriber is
//! never duplicated; after a fan-out, the write outcomes decide exactly
//! which subscribers stay: one whose write failed is removed and receives
//! nothing thereafter, the others are retained in registration order.

use vstd::prelude::*;

verus! {

/// The subscribers kept by a fan-out: those whose write succeeded, in
/// registration order.
pub open spec fn spec_keep(ids: Seq<u64>, ok: Seq<bool>) -> Seq<u64>
    decreases ids.len(),
{
    if ids.len() == 0 || ok.len() == 0 {
        Seq::empty()
    } else {
        let rest = spec_keep(ids.drop_last(), ok.drop_last());
        if ok.last() {
            rest.push(ids.last())
        } else {
            rest
        }
    }
}

/// Every kept subscriber had a successful write, and every subscriber
/// with a successful write is kept.
pub proof fn lemma_keep_membership(ids: Seq<u64>, ok: Seq<bool>)
    requires
        ids.len() == ok.len(),
    ensures
        forall|x: u64| spec_keep(ids, ok).contains(x) ==> ids.contains(x),
        forall|i: int| 0 <= i < ids.len() && ok[i] ==> spec_keep(ids, ok).contains(#[trigger] ids[i]),
    decreases ids.len(),
{
    if ids.len() > 0 {
        let head = ids.drop_last();
        lemma_keep_membership(head, ok.drop_last());
        let kept = spec_keep(ids, ok);
        let rest = spec_keep(head, ok.drop_last());
        assert forall|x: u64| kept.contains(x) implies ids.contains(x) by {
            if rest.contains(x) {
                assert(head.contains(x));
                let j = choose|j: int| 0 <= j < head.len() && head[j] == x;
                assert(ids[j] == x);
                assert(ids.contains(x));
            } else {
                let j = choose|j: int| 0 <= j < kept.len() && kept[j] == x;
                assert(ok.last() && j == rest.len());
                assert(x == ids.last());
                assert(ids[ids.len() - 1] == x);
                assert(ids.contains(x));
            }
        }
        assert forall|i: int| 0 <= i < ids.len() && ok[i] implies kept.contains(
            #[trigger] ids[i],
        ) by {
            if i < ids.len() - 1 {
                assert(head[i] == ids[i]);
                assert(rest.contains(head[i]));
                let j = choose|j: int| 0 <= j < rest.len() && rest[j] == ids[i];
                assert(kept[j] == ids[i]);
                assert(kept.contains(ids[i]));
            } else {
                assert(kept[kept.len() - 1] == ids[i]);
                assert(kept.contains(ids[i]));
            }
        }
    }
}

/// Pruning keeps distinct subscribers distinct.
pub proof fn lemma_keep_unique(ids: Seq<u64>, ok: Seq<bool>)
    requires
        ids.len() == ok.len(),
        forall|i: int, j: int| 0 <= i < j < ids.len() ==> ids[i] != ids[j],
    ensures
        forall|i: int, j: int|
            0 <= i < j < spec_keep(ids, ok).len() ==> spec_keep(ids, ok)[i] != spec_keep(
                ids,
                ok,
            )[j],
    decreases ids.len(),
{
    if ids.len() > 0 {
        let head = ids.drop_last();
        assert(forall|i: int, j: int| 0 <= i < j < head.len() ==> #[trigger] head[i] != #[trigger] head[j]);
        lemma_keep_unique(head, ok.drop_last());
        lemma_keep_membership(head, ok.drop_last());
        let rest = spec_keep(head, ok.drop_last());
        if ok.last() {
            assert forall|i: int, j: int|
                0 <= i < j < spec_keep(ids, ok).len() implies spec_keep(ids, ok)[i] != spec_keep(
                ids,
                ok,
            )[j] by {
                if j == spec_keep(ids, ok).len() - 1 {
                    assert(rest.contains(rest[i]));
                    assert(head.contains(rest[i]));
                    let k = choose|k: int| 0 <= k < head.len() && head[k] == rest[i];
                    assert(ids[k] == rest[i]);
                    assert(ids[k] != ids[ids.len() - 1]);
                }
            }
        }
    }
}

/// The set of currently connected event sinks, by identity.
pub struct Registry {
    ids: Vec<u64>,
    next_id: u64,
}

impl Registry {
    /// Identities of the live subscribers, in registration order.
    pub closed spec fn subscribers(self) -> Seq<u64> {
        self.ids@
    }

    /// The identity the next registration will hand out.
    pub closed spec fn next(self) -> int {
        self.next_id as int
    }

    /// No subscriber appears twice, and every identity is below the next
    /// one to be handed out.
    pub open spec fn wf(self) -> bool {
        &&& forall|i: int, j: int|
            0 <= i < j < self.subscribers().len() ==> self.subscribers()[i]
                != self.subscribers()[j]
        &&& forall|i: int|
            0 <= i < self.subscribers().len() ==> #[trigger] self.subscribers()[i] < self.next()
    }

    /// An empty registry.
    pub fn new() -> (r: Registry)
        ensures
            r.subscribers() == Seq::<u64>::empty(),
            r.next() == 0,
            r.wf(),
    {
        Registry { ids: Vec::new(), next_id: 0 }
    }

    /// Number of live subscribers.
    pub fn len(&self) -> (n: usize)
        ensures
            n == self.subscribers().len(),
    {
        self.ids.len()
    }

    /// The live subscribers, in registration order, for the fan-out to
    /// walk.
    pub fn ids(&self) -> (r: &Vec<u64>)
        ensures
            r@ == self.subscribers(),
    {
        &self.ids
    }

    /// Whether the identity space is exhausted, so that no further
    /// subscriber can be registered.
    pub fn at_capacity(&self) -> (r: bool)
        ensures
            r == (self.next() == u64::MAX),
    {
        self.next_id == u64::MAX
    }

    /// Add one new subscriber and return its identity, which no current
    /// subscriber carries: registration never duplicates a subscriber.
    pub fn register(&mut self) -> (id: u64)
        requires
            old(self).wf(),
            old(self).next() < u64::MAX,
        ensures
            final(self).wf(),
            final(self).subscribers() == old(self).subscribers().push(id),
            !old(self).subscribers().contains(id),
            final(self).next() == old(self).next() + 1,
    {
        let id = self.next_id;
        self.ids.push(id);
        self.next_id = self.next_id + 1;
        proof {
            if old(self).subscribers().contains(id) {
                let j = choose|j: int|
                    0 <= j < old(self).subscribers().len() && old(self).subscribers()[j] == id;
            }
        }
        id
    }

    /// Apply the outcome of one fan-out: `ok[i]` says whether the write
    /// to the `i`-th subscriber succeeded. Exactly the subscribers whose
    /// write succeeded are retained, in order; one whose write failed is
    /// removed and never written to again.
    pub fn apply_write_results(&mut self, ok: &Vec<bool>)
        requires
            old(self).wf(),
            ok@.len() == old(self).subscribers().len(),
        ensures
            final(self).wf(),
            final(self).subscribers() == spec_keep(old(self).subscribers(), ok@),
            final(self).next() == old(self).next(),
    {
        let ghost old_ids = self.ids@;
        let mut kept: Vec<u64> = Vec::new();
        let mut i: usize = 0;
        while i < self.ids.len()
            invariant
                i <= self.ids.len(),
                self.ids@ == old_ids,
                ok@.len() == old_ids.len(),
                kept@ == spec_keep(old_ids.take(i as int), ok@.take(i as int)),
            decreases self.ids.len() - i,
        {
            proof {
                assert(old_ids.take(i + 1).drop_last() =~= old_ids.take(i as int));
                assert(ok@.take(i + 1).drop_last() =~= ok@.take(i as int));
            }
            if ok[i] {
                kept.push(self.ids[i]);
            }
            i = i + 1;
        }
        proof {
            assert(old_ids.take(old_ids.len() as int) =~= old_ids);
            assert(ok@.take(old_ids.len() as int) =~= ok@);
            lemma_keep_unique(old_ids, ok@);
            lemma_keep_membership(old_ids, ok@);
        }
        self.ids = kept;
        proof {
            assert forall|k: int| 0 <= k < self.ids@.len() implies #[trigger] self.ids@[k]
                < self.next_id by {
                assert(spec_keep(old_ids, ok@)[k] == self.ids@[k]);
                assert(spec_keep(old_ids, ok@).contains(self.ids@[k]));
                assert(old_ids.contains(self.ids@[k]));
            }
        }
    }
}

} // verus!
