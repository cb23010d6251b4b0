//! The shared request counter.

use vstd::prelude::*;

verus! {

/// The state shared by the handlers: a counter.
#[derive(Debug, Clone, Copy)]
pub struct IndexState {
    pub id: i32,
}

impl IndexState {
    /// A fresh state; the counter starts at 0.
    pub fn new() -> (r: Self)
        ensures
            r.id == 0,
    {
        IndexState { id: 0 }
    }

    /// The current value of the counter.
    pub fn get_id(&self) -> (r: i32)
        ensures
            r == self.id,
    {
        self.id
    }

    /// Adds one to the counter and returns the new value. The counter must
    /// be below `i32::MAX` (the addition would overflow).
    pub fn id_add(&mut self) -> (r: i32)
        requires
            old(self).id < i32::MAX,
        ensures
            final(self).id == old(self).id + 1,
            r == final(self).id,
    {
        self.id = self.id + 1;
        self.id
    }
}

/// From a fresh state, the k-th call of `id_add` returns k, and the counter
/// then holds k: `ids[i]` is the counter after i calls (`ids[0]` the fresh
/// value), each call adding one as `id_add` ensures.
pub proof fn lemma_id_add_counts(ids: Seq<i32>)
    requires
        ids.len() > 0,
        ids[0] == 0,
        forall|i: int| 0 <= i < ids.len() - 1 ==> #[trigger] ids[i + 1] == ids[i] + 1,
    ensures
        forall|i: int| 0 <= i < ids.len() ==> #[trigger] ids[i] == i,
    decreases ids.len(),
{
    if ids.len() > 1 {
        let prefix = ids.drop_last();
        assert forall|i: int| 0 <= i < prefix.len() - 1 implies #[trigger] prefix[i + 1] == prefix[i]
            + 1 by {
            assert(ids[i + 1] == ids[i] + 1);
        }
        lemma_id_add_counts(prefix);
        assert forall|i: int| 0 <= i < ids.len() implies #[trigger] ids[i] == i by {
            if i < ids.len() - 1 {
                assert(prefix[i] == i);
            } else {
                assert(prefix[i - 1] == i - 1);
                assert(ids[(i - 1) + 1] == ids[i - 1] + 1);
            }
        }
    }
}

} // verus!
