//! The record repository: the mapping between catalog records and stored
//! rows. It executes exactly three operations — bounded list, point lookup by
//! primary key, insert — over an in-memory row set whose invariant every
//! operation preserves: ids are server-assigned, positive, strictly
//! increasing, and every row satisfies the record invariant. Handlers take
//! the repository as an injected dependency, so a test can hold the same
//! store the verified contracts speak of.

use vstd::prelude::*;

use crate::errors::UserError;
use crate::models::{Cat, NewCat};

verus! {

/// True when some stored record carries the given id.
pub open spec fn has_id(s: Seq<Cat>, cat_id: int) -> bool {
    exists|i: int| 0 <= i < s.len() && (#[trigger] s[i]).id == cat_id
}

/// The number of records a bounded list of `s` under `limit` returns.
pub open spec fn capped_len(s: Seq<Cat>, limit: int) -> int {
    if s.len() <= limit {
        s.len() as int
    } else {
        limit
    }
}

/// The records a bounded list of `s` under `limit` returns, in storage order.
pub open spec fn listed(s: Seq<Cat>, limit: int) -> Seq<Cat> {
    s.take(capped_len(s, limit))
}

/// A bounded set of catalog records with server-assigned primary keys.
pub struct Repository {
    cats: Vec<Cat>,
    next_id: i32,
}

impl Repository {
    /// The stored records, in insertion order.
    pub closed spec fn records(self) -> Seq<Cat> {
        self.cats@
    }

    /// The id the next successful insert will assign.
    pub closed spec fn spec_next_id(self) -> int {
        self.next_id as int
    }

    /// The store invariant: every row satisfies the record invariant, ids
    /// are strictly increasing in storage order (hence unique), and all sit
    /// below the next id to be assigned.
    pub closed spec fn wf(self) -> bool {
        &&& self.next_id >= 1
        &&& forall|i: int| 0 <= i < self.cats@.len() ==> (#[trigger] self.cats@[i]).wf()
        &&& forall|i: int|
            0 <= i < self.cats@.len() ==> (#[trigger] self.cats@[i]).id < self.next_id
        &&& forall|i: int, j: int|
            0 <= i < j < self.cats@.len() ==> (#[trigger] self.cats@[i]).id
                < (#[trigger] self.cats@[j]).id
    }

    /// An empty store; the first insert will assign id 1.
    pub fn new() -> (r: Repository)
        ensures
            r.wf(),
            r.records().len() == 0,
            r.spec_next_id() == 1,
    {
        Repository { cats: Vec::new(), next_id: 1 }
    }

    /// Returns up to `limit` records, in storage order.
    pub fn list(&self, limit: usize) -> (r: Vec<Cat>)
        requires
            self.wf(),
        ensures
            r@.len() == capped_len(self.records(), limit as int),
            forall|i: int|
                0 <= i < r@.len() ==> (#[trigger] r@[i]).same_record(self.records()[i]),
            forall|i: int| 0 <= i < r@.len() ==> (#[trigger] r@[i]).wf(),
    {
        let n = if limit <= self.cats.len() {
            limit
        } else {
            self.cats.len()
        };
        let mut out: Vec<Cat> = Vec::new();
        let mut i: usize = 0;
        while i < n
            invariant
                i <= n,
                n <= self.cats@.len(),
                n == capped_len(self.records(), limit as int),
                self.wf(),
                out@.len() == i,
                forall|k: int|
                    0 <= k < i ==> (#[trigger] out@[k]).same_record(self.records()[k]),
            decreases n - i,
        {
            let c = &self.cats[i];
            out.push(Cat { id: c.id, name: c.name.clone(), image_path: c.image_path.clone() });
            i = i + 1;
        }
        out
    }

    /// Point lookup by primary key: the record whose id equals `cat_id`, or
    /// not-found when no row carries that id.
    pub fn get_by_id(&self, cat_id: i32) -> (r: Result<Cat, UserError>)
        requires
            self.wf(),
        ensures
            match r {
                Ok(c) => has_id(self.records(), cat_id as int) && c.id == cat_id && c.wf()
                    && exists|i: int|
                    0 <= i < self.records().len() && c.same_record(#[trigger] self.records()[i]),
                Err(e) => !has_id(self.records(), cat_id as int) && e == UserError::NotFoundError,
            },
    {
        let n = self.cats.len();
        let mut i: usize = 0;
        while i < n
            invariant
                i <= n,
                n == self.cats@.len(),
                self.wf(),
                forall|k: int| 0 <= k < i ==> (#[trigger] self.cats@[k]).id != cat_id,
            decreases n - i,
        {
            let c = &self.cats[i];
            if c.id == cat_id {
                return Ok(
                    Cat { id: c.id, name: c.name.clone(), image_path: c.image_path.clone() },
                );
            }
            i = i + 1;
        }
        Err(UserError::NotFoundError)
    }

    /// Inserts one row, assigning it the next id. Fails only when the store
    /// has exhausted its id space, the one way this store rejects an insert.
    pub fn insert(&mut self, nc: NewCat) -> (r: Result<i32, UserError>)
        requires
            old(self).wf(),
            nc.wf(),
        ensures
            final(self).wf(),
            match r {
                Ok(new_id) => {
                    &&& old(self).spec_next_id() < i32::MAX
                    &&& new_id == old(self).spec_next_id()
                    &&& final(self).spec_next_id() == old(self).spec_next_id() + 1
                    &&& final(self).records().len() == old(self).records().len() + 1
                    &&& final(self).records().drop_last() == old(self).records()
                    &&& final(self).records().last().id == new_id
                    &&& final(self).records().last().name@ == nc.name@
                    &&& final(self).records().last().image_path@ == nc.image_path@
                },
                Err(e) => {
                    &&& old(self).spec_next_id() == i32::MAX
                    &&& e == UserError::UnexpectedError
                    &&& final(self).records() == old(self).records()
                    &&& final(self).spec_next_id() == old(self).spec_next_id()
                },
            },
    {
        if self.next_id == i32::MAX {
            return Err(UserError::UnexpectedError);
        }
        let new_id = self.next_id;
        let row = Cat { id: new_id, name: nc.name, image_path: nc.image_path };
        self.cats.push(row);
        self.next_id = new_id + 1;
        proof {
            assert(self.cats@.drop_last() =~= old(self).cats@);
        }
        Ok(new_id)
    }
}

/// The listing bound: whatever the limit, a bounded list never surfaces more
/// records than it, so the list endpoint — which always lists under the page
/// cap of 100 — never surfaces more than 100. Every surfaced record
/// satisfies the record invariant: an assigned positive id, a non-empty
/// name, a non-empty server-relative image path.
pub proof fn lemma_list_bounded(repo: Repository, limit: int)
    requires
        repo.wf(),
        limit >= 0,
    ensures
        listed(repo.records(), limit).len() <= limit,
        listed(repo.records(), 100).len() <= 100,
        forall|i: int|
            0 <= i < listed(repo.records(), limit).len() ==> (#[trigger] listed(
                repo.records(),
                limit,
            )[i]).wf(),
{
}

/// The create-then-list round trip: while the store holds fewer records than
/// the page cap, one insert makes the listing surface exactly one additional
/// record — the inserted one, in the last position. Its name and image path
/// are pinned by the insert's own contract.
pub proof fn lemma_create_then_list(before: Repository, after: Repository)
    requires
        before.records().len() < 100,
        after.records().len() == before.records().len() + 1,
        after.records().drop_last() == before.records(),
    ensures
        listed(after.records(), 100) == listed(before.records(), 100).push(
            after.records().last(),
        ),
        listed(after.records(), 100).len() == listed(before.records(), 100).len() + 1,
{
    assert(listed(after.records(), 100) =~= listed(before.records(), 100).push(
        after.records().last(),
    ));
}

} // verus!
