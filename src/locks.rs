//! The consumer side of the lock protocol: a point-in-time snapshot of the
//! lock store, and the check that a claimed lock is held.
use crate::ids::{EntityId, LockToken};
use vstd::prelude::*;

verus! {

/// A lock held on one entity, as the lock store records it.
#[derive(Debug, Clone, Copy, PartialEq, Eq, Structural)]
pub struct LockRecord {
    pub entity: EntityId,
    pub token: LockToken,
}

/// The lock store's record of a lock on a video file.
pub struct AirflowVideoLock {
    pub doc_id: EntityId,
    pub lock_id: LockToken,
}

/// The lock store's record of a lock on an archive.
pub struct AirflowArchiveLock {
    pub doc_id: EntityId,
    pub lock_id: LockToken,
}

impl AirflowVideoLock {
    pub fn record(&self) -> (r: LockRecord)
        ensures
            r == (LockRecord { entity: self.doc_id, token: self.lock_id }),
    {
        LockRecord { entity: self.doc_id, token: self.lock_id }
    }
}

impl AirflowArchiveLock {
    pub fn record(&self) -> (r: LockRecord)
        ensures
            r == (LockRecord { entity: self.doc_id, token: self.lock_id }),
    {
        LockRecord { entity: self.doc_id, token: self.lock_id }
    }
}

/// The lock records read from the lock store; at most one per entity.
pub struct LockTable {
    records: Vec<LockRecord>,
}

/// No two records of `s` are for the same entity.
pub open spec fn entities_unique(s: Seq<LockRecord>) -> bool {
    forall|i: int, j: int|
        0 <= i < s.len() && 0 <= j < s.len() && i != j ==> #[trigger] s[i].entity
            != #[trigger] s[j].entity
}

/// The entities whose claimed lock is not among `held`, in the order of the claims.
pub open spec fn failing_claims(held: Set<LockRecord>, claims: Seq<LockRecord>) -> Seq<EntityId>
    decreases claims.len(),
{
    if claims.len() == 0 {
        seq![]
    } else {
        let prev = failing_claims(held, claims.drop_last());
        if held.contains(claims.last()) {
            prev
        } else {
            prev.push(claims.last().entity)
        }
    }
}

/// The ids reported for a batch of claims are those of every claim that is
/// not held, and of no other: one failing lock never hides another.
pub proof fn lemma_failing_claims_complete(held: Set<LockRecord>, claims: Seq<LockRecord>)
    ensures
        forall|i: int|
            0 <= i < claims.len() && !held.contains(#[trigger] claims[i])
                ==> failing_claims(held, claims).contains(claims[i].entity),
        forall|j: int|
            0 <= j < failing_claims(held, claims).len() ==> exists|i: int|
                0 <= i < claims.len() && !held.contains(#[trigger] claims[i]) && claims[i].entity
                    == #[trigger] failing_claims(held, claims)[j],
        failing_claims(held, claims).len() <= claims.len(),
    decreases claims.len(),
{
    if claims.len() > 0 {
        let init = claims.drop_last();
        lemma_failing_claims_complete(held, init);
        let prev = failing_claims(held, init);
        let out = failing_claims(held, claims);
        assert forall|i: int|
            0 <= i < claims.len() && !held.contains(#[trigger] claims[i]) implies out.contains(
            claims[i].entity,
        ) by {
            if i < claims.len() - 1 {
                assert(init[i] == claims[i]);
                let k = choose|k: int| 0 <= k < prev.len() && prev[k] == init[i].entity;
                assert(out[k] == prev[k]);
            } else {
                assert(out[out.len() - 1] == claims[i].entity);
            }
        }
        assert forall|j: int| 0 <= j < out.len() implies #[trigger] out[j] == out[j] && exists|i: int|
            0 <= i < claims.len() && !held.contains(#[trigger] claims[i]) && claims[i].entity
                == out[j] by {
            if j < prev.len() {
                let i = choose|i: int|
                    0 <= i < init.len() && !held.contains(#[trigger] init[i]) && init[i].entity
                        == prev[j];
                assert(claims[i] == init[i]);
            } else {
                assert(claims[claims.len() - 1] == claims.last());
            }
        }
    }
}

impl LockTable {
    /// The records held, as a set.
    pub closed spec fn held(&self) -> Set<LockRecord> {
        self.records@.to_set()
    }

    pub closed spec fn wf(&self) -> bool {
        entities_unique(self.records@)
    }

    /// Builds the table from the records read; two records for one entity
    /// break the store's invariant, and such an entity is the error.
    pub fn from_records(records: Vec<LockRecord>) -> (r: Result<LockTable, EntityId>)
        ensures
            r is Ok <==> entities_unique(records@),
            r is Ok ==> r->Ok_0.wf() && r->Ok_0.held() == records@.to_set(),
            r is Err ==> exists|i: int, j: int|
                0 <= i < j < records@.len() && records@[i].entity == r->Err_0
                    && records@[j].entity == r->Err_0,
    {
        let n = records.len();
        let mut j: usize = 0;
        while j < n
            invariant
                n == records@.len(),
                0 <= j <= n,
                entities_unique(records@.take(j as int)),
            decreases n - j,
        {
            let mut i: usize = 0;
            while i < j
                invariant
                    n == records@.len(),
                    0 <= i <= j < n,
                    forall|k: int| 0 <= k < i ==> records@[k].entity != records@[j as int].entity,
                decreases j - i,
            {
                if records[i].entity == records[j].entity {
                    return Err(records[j].entity);
                }
                i = i + 1;
            }
            proof {
                let t = records@.take(j + 1);
                assert forall|a: int, b: int|
                    0 <= a < t.len() && 0 <= b < t.len() && a != b implies #[trigger] t[a].entity
                    != #[trigger] t[b].entity by {
                    if a < j && b < j {
                        assert(records@.take(j as int)[a] == t[a]);
                        assert(records@.take(j as int)[b] == t[b]);
                    }
                }
            }
            j = j + 1;
        }
        assert(records@.take(n as int) == records@);
        Ok(LockTable { records })
    }

    /// Whether the store holds the record `{entity, token}`: a missing
    /// record and a record with another token both give `false`.
    pub fn verify(&self, entity: EntityId, token: LockToken) -> (r: bool)
        ensures
            r == self.held().contains(LockRecord { entity, token }),
    {
        let n = self.records.len();
        let mut i: usize = 0;
        while i < n
            invariant
                n == self.records@.len(),
                0 <= i <= n,
                forall|k: int|
                    0 <= k < i ==> self.records@[k] != (LockRecord { entity, token }),
            decreases n - i,
        {
            let rec = self.records[i];
            if rec.entity == entity && rec.token == token {
                proof {
                    assert(self.records@[i as int] == rec);
                }
                return true;
            }
            i = i + 1;
        }
        proof {
            if self.held().contains(LockRecord { entity, token }) {
                let k = choose|k: int|
                    0 <= k < n && self.records@[k] == (LockRecord { entity, token });
            }
        }
        false
    }

    /// Checks every claim, and returns the entities of all the claims that
    /// failed, in the order given (empty when every lock is held).
    pub fn rejected(&self, claims: &Vec<LockRecord>) -> (r: Vec<EntityId>)
        ensures
            r@ == failing_claims(self.held(), claims@),
    {
        let mut out: Vec<EntityId> = Vec::new();
        let n = claims.len();
        let mut i: usize = 0;
        while i < n
            invariant
                n == claims@.len(),
                0 <= i <= n,
                out@ == failing_claims(self.held(), claims@.take(i as int)),
            decreases n - i,
        {
            let c = claims[i];
            let ok = self.verify(c.entity, c.token);
            proof {
                let t = claims@.take(i + 1);
                assert(t.drop_last() == claims@.take(i as int));
                assert(t.last() == c);
            }
            if !ok {
                out.push(c.entity);
            }
            i = i + 1;
        }
        assert(claims@.take(n as int) == claims@);
        out
    }
}

} // verus!
