//! The measurement record and its attestation.
//!
//! A measurement pairs two normalized 3D points and a stored image artifact
//! under an identity assigned once at creation. Its status moves only along
//! the lifecycle path of [`crate::status`], and its attestation is set at
//! most once, only in the Completed state.

use vstd::prelude::*;
use crate::point::Point3D;
use crate::status::Status;

verus! {

/// Externally produced proof-membership evidence: an attestation identifier,
/// an ordered sequence of path elements, a total leaf count, and the index
/// of this measurement's leaf. Read-only for the core.
#[derive(Debug)]
pub struct Attestation {
    pub attestation_id: u64,
    pub merkle_path: Vec<String>,
    pub leaf_count: u64,
    pub index: u64,
}

/// The mathematical value of an [`Attestation`].
pub struct AttestationView {
    pub attestation_id: u64,
    pub merkle_path: Seq<String>,
    pub leaf_count: u64,
    pub index: u64,
}

impl View for Attestation {
    type V = AttestationView;

    open spec fn view(&self) -> AttestationView {
        AttestationView {
            attestation_id: self.attestation_id,
            merkle_path: self.merkle_path@,
            leaf_count: self.leaf_count,
            index: self.index,
        }
    }
}

impl Clone for Attestation {
    fn clone(&self) -> (r: Self)
        ensures
            r@ == self@,
    {
        let merkle_path = self.merkle_path.clone();
        proof {
            assert(merkle_path@ =~= self.merkle_path@);
        }
        Attestation {
            attestation_id: self.attestation_id,
            merkle_path,
            leaf_count: self.leaf_count,
            index: self.index,
        }
    }
}

/// A client-submitted record: identity, image artifact reference, the two
/// normalized points, the current status, and the optional attestation.
#[derive(Debug)]
pub struct Measurement {
    pub id: u128,
    pub image_path: String,
    pub start_point: Point3D,
    pub end_point: Point3D,
    pub status: Status,
    pub attestation: Option<Attestation>,
}

/// The mathematical value of a [`Measurement`].
pub struct MeasurementView {
    pub id: u128,
    pub image_path: Seq<char>,
    pub start_point: Point3D,
    pub end_point: Point3D,
    pub status: Status,
    pub attestation: Option<AttestationView>,
}

impl MeasurementView {
    /// Both points lie in the circuit domain; true of every record created
    /// by ingestion, since ingestion normalizes exactly once.
    pub open spec fn wf(self) -> bool {
        self.start_point.wf() && self.end_point.wf()
    }

    /// The same record with another status; what a store transition yields.
    pub open spec fn with_status(self, status: Status) -> MeasurementView {
        MeasurementView { status, ..self }
    }

    /// Best-effort enrichment: the attestation is attached only when the
    /// record is Completed and has none yet; in every other case the record
    /// is unchanged, so an attestation, once set, is never altered.
    pub open spec fn enriched(self, att: AttestationView) -> MeasurementView {
        if self.status == Status::Completed && self.attestation is None {
            MeasurementView { attestation: Some(att), ..self }
        } else {
            self
        }
    }
}

/// Enrichment is one-time and idempotent: a record that already carries an
/// attestation is never altered by a later enrichment, whatever data the
/// probe turns up, and enrichment never changes the status. So an
/// attestation, once set, is never altered by a subsequent status query.
pub proof fn lemma_enrichment_idempotent(
    m: MeasurementView,
    first: AttestationView,
    later: AttestationView,
)
    ensures
        m.attestation is Some ==> m.enriched(first) == m,
        m.enriched(first).status == m.status,
        m.enriched(first).attestation is Some ==> m.enriched(first).enriched(later) == m.enriched(
            first,
        ),
{
}

impl View for Measurement {
    type V = MeasurementView;

    open spec fn view(&self) -> MeasurementView {
        MeasurementView {
            id: self.id,
            image_path: self.image_path@,
            start_point: self.start_point,
            end_point: self.end_point,
            status: self.status,
            attestation: match self.attestation {
                Some(a) => Some(a@),
                None => None,
            },
        }
    }
}

impl Clone for Measurement {
    fn clone(&self) -> (r: Self)
        ensures
            r@ == self@,
    {
        Measurement {
            id: self.id,
            image_path: self.image_path.clone(),
            start_point: self.start_point,
            end_point: self.end_point,
            status: self.status,
            attestation: match &self.attestation {
                Some(a) => Some(a.clone()),
                None => None,
            },
        }
    }
}

impl Measurement {
    /// Create a fresh record: identity and points fixed for life, status
    /// Pending, no attestation.
    pub fn new(id: u128, image_path: String, start_point: Point3D, end_point: Point3D) -> (m:
        Measurement)
        ensures
            m@ == (MeasurementView {
                id,
                image_path: image_path@,
                start_point,
                end_point,
                status: Status::Pending,
                attestation: None,
            }),
    {
        Measurement { id, image_path, start_point, end_point, status: Status::Pending, attestation: None }
    }
}

} // verus!
