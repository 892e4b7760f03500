//! The table of locks: one lock for each location that a source was
//! resolved to, made when the location is first asked for and kept from
//! then on.

use vstd::prelude::*;
use crate::dist::{ResourceId, ResourceIdView};

verus! {

/// Whether `ids` holds `id`.
pub open spec fn holds(ids: Seq<ResourceIdView>, id: ResourceIdView) -> bool {
    exists|i: int| 0 <= i < ids.len() && #[trigger] ids[i] == id
}

/// Whether no identity stands twice in `ids`.
pub open spec fn distinct(ids: Seq<ResourceIdView>) -> bool {
    forall|i: int, j: int| 0 <= i < j < ids.len() ==> #[trigger] ids[i] != #[trigger] ids[j]
}

/// The token that `id` gets from a table that holds `ids`: the place where
/// it stands, or the next free place.
pub open spec fn spec_token(ids: Seq<ResourceIdView>, id: ResourceIdView) -> int {
    if holds(ids, id) {
        choose|i: int| 0 <= i < ids.len() && #[trigger] ids[i] == id
    } else {
        ids.len() as int
    }
}

/// The table after `id` was asked for: as it was if it held `id`, else with
/// `id` at its end.
pub open spec fn spec_acquire(ids: Seq<ResourceIdView>, id: ResourceIdView) -> Seq<ResourceIdView> {
    if holds(ids, id) {
        ids
    } else {
        ids.push(id)
    }
}

/// The locks that were asked for so far. A lock is known by its token, the
/// place of its identity in the table.
pub struct Locks {
    ids: Vec<ResourceId>,
}

impl View for Locks {
    type V = Seq<ResourceIdView>;

    closed spec fn view(&self) -> Seq<ResourceIdView> {
        Seq::new(self.ids@.len(), |i: int| self.ids@[i]@)
    }
}

impl Locks {
    /// No identity has two locks.
    pub open spec fn wf(&self) -> bool {
        distinct(self@)
    }

    /// The table has no more locks than can be counted.
    pub proof fn lemma_len_fits(self)
        ensures
            self@.len() <= usize::MAX,
    {
        assert(self.ids.len() == self.ids@.len());
    }

    /// A table without locks.
    pub fn new() -> (r: Locks)
        ensures
            r@ == Seq::<ResourceIdView>::empty(),
            r.wf(),
    {
        let r = Locks { ids: Vec::new() };
        assert(r@ =~= Seq::<ResourceIdView>::empty());
        r
    }

    /// How many locks there are.
    pub fn len(&self) -> (n: usize)
        ensures
            n == self@.len(),
    {
        self.ids.len()
    }

    /// The token of the lock for `id`, where there is one.
    pub fn token_of(&self, id: &ResourceId) -> (r: Option<usize>)
        ensures
            match r {
                Some(token) => token < self@.len() && self@[token as int] == id@,
                None => !holds(self@, id@),
            },
    {
        let mut i: usize = 0;
        while i < self.ids.len()
            invariant
                i <= self.ids.len(),
                self@.len() == self.ids@.len(),
                forall|j: int| 0 <= j < i ==> #[trigger] self@[j] != id@,
            decreases self.ids.len() - i,
        {
            if self.ids[i].same(id) {
                return Some(i);
            }
            i = i + 1;
        }
        None
    }

    /// The token of the lock for `id`. The lock is made if there is none
    /// yet; no other lock changes its token, and none is ever taken away.
    pub fn acquire(&mut self, id: ResourceId) -> (token: usize)
        requires
            old(self).wf(),
        ensures
            final(self).wf(),
            final(self)@ == spec_acquire(old(self)@, id@),
            token == spec_token(old(self)@, id@),
            token < final(self)@.len(),
            final(self)@[token as int] == id@,
    {
        match self.token_of(&id) {
            Some(token) => token,
            None => {
                let token = self.ids.len();
                self.ids.push(id);
                assert(self@ =~= old(self)@.push(id@));
                token
            },
        }
    }
}

/// A lock keeps its token: in a table without doubles that begins with an
/// earlier state of itself, an identity that had a token then has the same
/// one now, and two tokens of one identity are one token.
pub proof fn lemma_token_is_stable(
    before: Seq<ResourceIdView>,
    after: Seq<ResourceIdView>,
    id: ResourceIdView,
    earlier: int,
    later: int,
)
    requires
        distinct(after),
        before.len() <= after.len(),
        before == after.subrange(0, before.len() as int),
        0 <= earlier < before.len(),
        before[earlier] == id,
        0 <= later < after.len(),
        after[later] == id,
    ensures
        earlier == later,
{
    assert(after[earlier] == after.subrange(0, before.len() as int)[earlier]);
}

/// What asking for `id` does to a table without doubles: the table stays
/// without doubles, what it held stays where it was, and the token is the
/// place of `id` in the table that results.
pub proof fn lemma_acquire(ids: Seq<ResourceIdView>, id: ResourceIdView)
    requires
        distinct(ids),
    ensures
        distinct(spec_acquire(ids, id)),
        ids.len() <= spec_acquire(ids, id).len(),
        ids == spec_acquire(ids, id).subrange(0, ids.len() as int),
        0 <= spec_token(ids, id) < spec_acquire(ids, id).len(),
        spec_acquire(ids, id)[spec_token(ids, id)] == id,
{
    let after = spec_acquire(ids, id);
    assert(ids =~= after.subrange(0, ids.len() as int));
}

/// The table after the first `n` of `requests` were asked for, one after
/// the other.
pub open spec fn spec_acquire_all(
    ids: Seq<ResourceIdView>,
    requests: Seq<ResourceIdView>,
    n: nat,
) -> Seq<ResourceIdView>
    decreases n,
{
    if n == 0 {
        ids
    } else {
        spec_acquire(spec_acquire_all(ids, requests, (n - 1) as nat), requests[n - 1])
    }
}

/// The token that the request at place `i` gets.
pub open spec fn spec_token_at(
    ids: Seq<ResourceIdView>,
    requests: Seq<ResourceIdView>,
    i: int,
) -> int {
    spec_token(spec_acquire_all(ids, requests, i as nat), requests[i])
}

/// However many requests were served, the table is without doubles and
/// begins with every earlier state of itself.
pub proof fn lemma_acquire_all(
    ids: Seq<ResourceIdView>,
    requests: Seq<ResourceIdView>,
    m: nat,
    n: nat,
)
    requires
        distinct(ids),
        m <= n <= requests.len(),
    ensures
        distinct(spec_acquire_all(ids, requests, n)),
        spec_acquire_all(ids, requests, m).len() <= spec_acquire_all(ids, requests, n).len(),
        spec_acquire_all(ids, requests, m) == spec_acquire_all(ids, requests, n).subrange(
            0,
            spec_acquire_all(ids, requests, m).len() as int,
        ),
    decreases n,
{
    let early = spec_acquire_all(ids, requests, m);
    let late = spec_acquire_all(ids, requests, n);
    if n == 0 {
        assert(early =~= late.subrange(0, early.len() as int));
    } else {
        let before = spec_acquire_all(ids, requests, (n - 1) as nat);
        if m == n {
            lemma_acquire_all(ids, requests, (n - 1) as nat, (n - 1) as nat);
            lemma_acquire(before, requests[n - 1]);
            assert(early =~= late.subrange(0, early.len() as int));
        } else {
            lemma_acquire_all(ids, requests, m, (n - 1) as nat);
            lemma_acquire(before, requests[n - 1]);
            assert(early =~= late.subrange(0, early.len() as int));
        }
    }
}

/// One lock for each location, however many ask. Of any number of requests
/// that are served one after the other, two get the same lock if and only
/// if they name the same location: all who ask for one location wait for
/// the one lock, and no two locations share a lock.
pub proof fn lemma_one_lock_for_each_location(
    ids: Seq<ResourceIdView>,
    requests: Seq<ResourceIdView>,
    i: int,
    j: int,
)
    requires
        distinct(ids),
        0 <= i < j < requests.len(),
    ensures
        spec_token_at(ids, requests, i) == spec_token_at(ids, requests, j) <==> requests[i]
            == requests[j],
{
    let before_i = spec_acquire_all(ids, requests, i as nat);
    let after_i = spec_acquire_all(ids, requests, (i + 1) as nat);
    let before_j = spec_acquire_all(ids, requests, j as nat);
    let after_j = spec_acquire_all(ids, requests, (j + 1) as nat);
    let token_i = spec_token_at(ids, requests, i);
    let token_j = spec_token_at(ids, requests, j);
    lemma_acquire_all(ids, requests, i as nat, i as nat);
    lemma_acquire(before_i, requests[i]);
    lemma_acquire_all(ids, requests, (i + 1) as nat, (j + 1) as nat);
    lemma_acquire_all(ids, requests, j as nat, j as nat);
    lemma_acquire(before_j, requests[j]);
    assert(after_j[token_i] == after_j.subrange(0, after_i.len() as int)[token_i]);
    assert(after_j[token_i] == requests[i]);
    assert(after_j[token_j] == requests[j]);
}

} // verus!
