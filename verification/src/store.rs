//! The record store: the single source of truth for every measurement.
//!
//! A concurrency-safe deployment wraps one [`RecordStore`] in an exclusive
//! lock; each operation here is a single, synchronous map access, so no lock
//! around it ever spans a suspension point. Reads that must act across such a
//! point take a [`RecordStore::snapshot`] first.
//!
//! The store's invariant: every record is keyed by its own identity and its
//! points lie in the circuit domain.

use vstd::prelude::*;
use std::collections::HashMap;
use crate::measurement::Attestation;
use crate::measurement::Measurement;
use crate::status::Status;

verus! {

broadcast use vstd::std_specs::hash::group_hash_axioms;

/// Why a store operation was refused.
#[derive(Clone, Copy, Debug, PartialEq, Eq, Structural)]
pub enum StoreError {
    /// `create` found the identity already present.
    DuplicateIdentity,
    /// The identity names no record.
    NotFound,
}

/// The outcome of asking the store to move a record to another status.
#[derive(Clone, Copy, Debug, PartialEq, Eq, Structural)]
pub enum TransitionOutcome {
    /// The transition was on the lifecycle path and was applied.
    Applied,
    /// The transition was not allowed from the record's current status; the
    /// record is unchanged.
    Refused,
    /// The identity names no record.
    NotFound,
}

/// A mapping from measurement identity to record.
pub struct RecordStore {
    records: HashMap<u128, Measurement>,
}

impl View for RecordStore {
    type V = Map<u128, Measurement>;

    closed spec fn view(&self) -> Map<u128, Measurement> {
        self.records@
    }
}

impl RecordStore {
    /// Every record is stored under its own identity with points in the
    /// circuit domain.
    pub open spec fn inv(self) -> bool {
        forall|k: u128|
            self@.contains_key(k) ==> #[trigger] self@[k].id == k && self@[k]@.wf()
    }

    /// An empty store.
    pub fn new() -> (s: Self)
        ensures
            s@ == Map::<u128, Measurement>::empty(),
            s.inv(),
    {
        RecordStore { records: HashMap::new() }
    }

    /// Whether the identity names a record.
    pub fn contains(&self, id: u128) -> (r: bool)
        ensures
            r == self@.contains_key(id),
    {
        self.records.contains_key(&id)
    }

    /// Insert a new record under its identity; refused when the identity is
    /// already taken, in which case nothing changes.
    pub fn create(&mut self, m: Measurement) -> (r: Result<(), StoreError>)
        requires
            old(self).inv(),
            m@.wf(),
        ensures
            final(self).inv(),
            r is Err <==> old(self)@.contains_key(m.id),
            r is Err ==> r == Err::<(), StoreError>(StoreError::DuplicateIdentity) && final(self)@
                == old(self)@,
            r is Ok ==> final(self)@ == old(self)@.insert(m.id, m),
    {
        if self.records.contains_key(&m.id) {
            Err(StoreError::DuplicateIdentity)
        } else {
            let id = m.id;
            self.records.insert(id, m);
            Ok(())
        }
    }

    /// An immutable copy of the record under `id`, or `None` exactly when
    /// the identity names no record. Callers that read and then act across a
    /// suspension point work on this copy, never on the live entry.
    pub fn snapshot(&self, id: u128) -> (r: Option<Measurement>)
        ensures
            r is Some <==> self@.contains_key(id),
            r is Some ==> r.unwrap()@ == self@[id]@,
    {
        match self.records.get(&id) {
            Some(m) => Some(m.clone()),
            None => None,
        }
    }

    /// Move the record under `id` to `to`, if that is a step of the
    /// lifecycle path; otherwise change nothing. Every status change in the
    /// system goes through here, so no record's status ever moves backward.
    pub fn apply_status(&mut self, id: u128, to: Status) -> (r: TransitionOutcome)
        requires
            old(self).inv(),
        ensures
            final(self).inv(),
            r == TransitionOutcome::NotFound <==> !old(self)@.contains_key(id),
            r == TransitionOutcome::NotFound ==> final(self)@ == old(self)@,
            old(self)@.contains_key(id) ==> {
                let m = old(self)@[id];
                if m@.status.allowed(to) {
                    &&& r == TransitionOutcome::Applied
                    &&& final(self)@.dom() == old(self)@.dom()
                    &&& final(self)@[id]@ == m@.with_status(to)
                    &&& forall|k: u128|
                        k != id && old(self)@.contains_key(k) ==> final(self)@[k] == old(
                            self,
                        )@[k]
                } else {
                    &&& r == TransitionOutcome::Refused
                    &&& final(self)@ == old(self)@
                }
            },
    {
        let snap = match self.records.get(&id) {
            Some(m) => Some(m.clone()),
            None => None,
        };
        match snap {
            None => TransitionOutcome::NotFound,
            Some(m) => {
                let (next, ok) = m.status.advance(to);
                if ok {
                    let mut updated = m;
                    updated.status = next;
                    self.records.insert(id, updated);
                    TransitionOutcome::Applied
                } else {
                    TransitionOutcome::Refused
                }
            },
        }
    }

    /// Whether a status query should probe for attestation data: the record
    /// exists, is Completed, and carries no attestation yet.
    pub fn needs_attestation(&self, id: u128) -> (r: bool)
        ensures
            r == (self@.contains_key(id) && self@[id]@.status == Status::Completed
                && self@[id]@.attestation is None),
    {
        match self.records.get(&id) {
            Some(m) => matches!(m.status, Status::Completed) && m.attestation.is_none(),
            None => false,
        }
    }

    /// Merge externally discovered attestation data into the record under
    /// `id`. The attachment happens only when the record is Completed and
    /// has no attestation yet; otherwise the record stays as it is, so an
    /// attestation, once set, is never overwritten and status never changes.
    pub fn attach_attestation(&mut self, id: u128, att: Attestation) -> (r: Result<
        (),
        StoreError,
    >)
        requires
            old(self).inv(),
        ensures
            final(self).inv(),
            r is Err <==> !old(self)@.contains_key(id),
            r is Err ==> r == Err::<(), StoreError>(StoreError::NotFound) && final(self)@ == old(
                self,
            )@,
            old(self)@.contains_key(id) ==> {
                &&& final(self)@.dom() == old(self)@.dom()
                &&& final(self)@[id]@ == old(self)@[id]@.enriched(att@)
                &&& forall|k: u128|
                    k != id && old(self)@.contains_key(k) ==> final(self)@[k] == old(self)@[k]
            },
    {
        let snap = match self.records.get(&id) {
            Some(m) => Some(m.clone()),
            None => None,
        };
        match snap {
            None => Err(StoreError::NotFound),
            Some(m) => {
                let eligible = match (&m.status, &m.attestation) {
                    (Status::Completed, Option::None) => true,
                    _ => false,
                };
                if eligible {
                    let mut updated = m;
                    updated.attestation = Some(att);
                    self.records.insert(id, updated);
                }
                Ok(())
            },
        }
    }
}

/// Submissions of distinct measurements are independent: after two creations
/// under distinct identities — in whatever order their inserts landed in the
/// map — each record holds exactly what its own submission put there, and
/// every other record is untouched. There is no cross-contamination of
/// fields between records.
pub proof fn lemma_records_independent(
    s: Map<u128, Measurement>,
    m1: Measurement,
    m2: Measurement,
)
    requires
        m1.id != m2.id,
    ensures
        s.insert(m1.id, m1).insert(m2.id, m2)[m1.id] == m1,
        s.insert(m1.id, m1).insert(m2.id, m2)[m2.id] == m2,
        forall|k: u128|
            k != m1.id && k != m2.id && s.contains_key(k) ==> s.insert(m1.id, m1).insert(
                m2.id,
                m2,
            )[k] == s[k],
{
}

/// The store's contents after a batch of creations, oldest first. Each
/// successful creation ensures exactly `final(self)@ == old(self)@.insert(..)`,
/// so this is the store any run of N submissions leaves behind.
pub open spec fn created_all(s: Map<u128, Measurement>, ms: Seq<Measurement>) -> Map<
    u128,
    Measurement,
>
    decreases ms.len(),
{
    if ms.len() == 0 {
        s
    } else {
        created_all(s, ms.drop_last()).insert(ms.last().id, ms.last())
    }
}

/// Whether some measurement of the batch carries the identity `k`.
pub open spec fn batch_has_identity(ms: Seq<Measurement>, k: u128) -> bool {
    exists|i: int| 0 <= i < ms.len() && ms[i].id == k
}

/// Submission of N distinct measurements results in N independent records:
/// after any number of creations under pairwise-distinct identities, each
/// identity holds exactly the record its own submission put there, and every
/// record outside the batch is untouched — no cross-contamination of fields.
pub proof fn lemma_batch_records_independent(s: Map<u128, Measurement>, ms: Seq<Measurement>)
    requires
        forall|i: int, j: int| 0 <= i < j < ms.len() ==> ms[i].id != ms[j].id,
    ensures
        forall|i: int|
            0 <= i < ms.len() ==> created_all(s, ms).contains_key(#[trigger] ms[i].id)
                && created_all(s, ms)[ms[i].id] == ms[i],
        forall|k: u128|
            s.contains_key(k) && !batch_has_identity(ms, k) ==> created_all(s, ms).contains_key(k)
                && created_all(s, ms)[k] == s[k],
    decreases ms.len(),
{
    if ms.len() > 0 {
        let prefix = ms.drop_last();
        let last = ms.last();
        lemma_batch_records_independent(s, prefix);
        assert forall|i: int|
            0 <= i < ms.len() implies created_all(s, ms).contains_key(#[trigger] ms[i].id)
            && created_all(s, ms)[ms[i].id] == ms[i] by {
            if i < ms.len() - 1 {
                assert(prefix[i] == ms[i]);
                assert(ms[i].id != last.id);
            }
        }
        assert forall|k: u128|
            s.contains_key(k) && !batch_has_identity(ms, k) implies created_all(
            s,
            ms,
        ).contains_key(k) && created_all(s, ms)[k] == s[k] by {
            assert(!batch_has_identity(prefix, k)) by {
                if batch_has_identity(prefix, k) {
                    let i = choose|i: int| 0 <= i < prefix.len() && prefix[i].id == k;
                    assert(ms[i].id == k);
                }
            }
            assert(last.id != k) by {
                if last.id == k {
                    assert(ms[ms.len() - 1].id == k);
                }
            }
        }
    }
}

} // verus!
