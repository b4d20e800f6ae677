//! Ingestion: validation of a submission and creation of its record.
//!
//! A submission must carry an image and both points; a missing field is
//! rejected synchronously, before any record is created. The points are
//! normalized here, exactly once; a point outside the domain the circuit can
//! represent is rejected as malformed. Only after the image artifact has been
//! persisted does registration create the Pending record under a freshly
//! drawn identity.

use vstd::prelude::*;
use crate::measurement::Measurement;
use crate::measurement::MeasurementView;
use crate::point::Point3D;
use crate::point::RawPoint;
use crate::point::normalize_point;
use crate::status::Status;
use crate::store::RecordStore;
use crate::store::StoreError;

verus! {

/// Why a submission was rejected; no record exists in any of these cases.
#[derive(Clone, Copy, Debug, PartialEq, Eq, Structural)]
pub enum SubmitError {
    MissingImage,
    MissingStartPoint,
    MissingEndPoint,
    /// A coordinate lies outside the domain the proving circuit can
    /// represent.
    PointOutOfRange,
}

/// A validated, normalized submission, ready to be registered.
#[derive(Clone, Copy, Debug, PartialEq, Eq, Structural)]
pub struct PreparedSubmission {
    pub start_point: Point3D,
    pub end_point: Point3D,
}

impl PreparedSubmission {
    /// Both points lie in the circuit domain; true of every value
    /// [`prepare_submission`] returns.
    pub open spec fn wf(self) -> bool {
        self.start_point.wf() && self.end_point.wf()
    }

    /// Exec twin of [`PreparedSubmission::wf`], for callers outside the
    /// verified world.
    pub fn is_well_formed(&self) -> (r: bool)
        ensures
            r == self.wf(),
    {
        self.start_point.x >= -crate::point::COORD_LIMIT && self.start_point.x
            <= crate::point::COORD_LIMIT && self.start_point.y >= -crate::point::COORD_LIMIT
            && self.start_point.y <= crate::point::COORD_LIMIT && self.start_point.z
            >= -crate::point::COORD_LIMIT && self.start_point.z <= crate::point::COORD_LIMIT
            && self.end_point.x >= -crate::point::COORD_LIMIT && self.end_point.x
            <= crate::point::COORD_LIMIT && self.end_point.y >= -crate::point::COORD_LIMIT
            && self.end_point.y <= crate::point::COORD_LIMIT && self.end_point.z
            >= -crate::point::COORD_LIMIT && self.end_point.z <= crate::point::COORD_LIMIT
    }
}

/// Validate a submission and normalize its points.
///
/// Rejected, in this order of checks, when the image is missing, the start
/// point is missing, the end point is missing, or a coordinate is out of
/// range; accepted otherwise, with both points normalized. No record is
/// created here under any outcome.
pub fn prepare_submission(
    image: &Option<Vec<u8>>,
    start_point: &Option<RawPoint>,
    end_point: &Option<RawPoint>,
) -> (r: Result<PreparedSubmission, SubmitError>)
    ensures
        r is Ok <==> (image is Some && start_point is Some && end_point is Some
            && start_point.unwrap().in_range() && end_point.unwrap().in_range()),
        r == Err::<PreparedSubmission, SubmitError>(SubmitError::MissingImage) <==> image is None,
        r == Err::<PreparedSubmission, SubmitError>(SubmitError::MissingStartPoint) <==> (
        image is Some && start_point is None),
        r == Err::<PreparedSubmission, SubmitError>(SubmitError::MissingEndPoint) <==> (
        image is Some && start_point is Some && end_point is None),
        r == Err::<PreparedSubmission, SubmitError>(SubmitError::PointOutOfRange) <==> (
        image is Some && start_point is Some && end_point is Some && !(
        start_point.unwrap().in_range() && end_point.unwrap().in_range())),
        r is Ok ==> {
            &&& r.unwrap().start_point == Point3D::spec_normalized(start_point.unwrap())
            &&& r.unwrap().end_point == Point3D::spec_normalized(end_point.unwrap())
            &&& r.unwrap().wf()
        },
{
    if image.is_none() {
        return Err(SubmitError::MissingImage);
    }
    let raw_start = match start_point {
        Some(p) => p,
        None => {
            return Err(SubmitError::MissingStartPoint);
        },
    };
    let raw_end = match end_point {
        Some(p) => p,
        None => {
            return Err(SubmitError::MissingEndPoint);
        },
    };
    let start = match normalize_point(raw_start) {
        Some(p) => p,
        None => {
            return Err(SubmitError::PointOutOfRange);
        },
    };
    let end = match normalize_point(raw_end) {
        Some(p) => p,
        None => {
            return Err(SubmitError::PointOutOfRange);
        },
    };
    Ok(PreparedSubmission { start_point: start, end_point: end })
}

/// Relies on uuid::Uuid::new_v4, a version-4 UUID drawn from the process's
/// random source, taken as its 128-bit value. The result depends on
/// randomness, so nothing is promised of it.
#[verifier::external_body]
fn fresh_identity() -> u128 {
    uuid::Uuid::new_v4().as_u128()
}

/// The view of the record that registering a prepared submission creates.
pub open spec fn spec_fresh_record(
    id: u128,
    image_path: Seq<char>,
    prepared: PreparedSubmission,
) -> MeasurementView {
    MeasurementView {
        id,
        image_path,
        start_point: prepared.start_point,
        end_point: prepared.end_point,
        status: Status::Pending,
        attestation: None,
    }
}

/// Register a prepared submission under a given identity: create its record
/// with status Pending and no attestation. Refused, with nothing created,
/// exactly when the identity is already taken.
pub fn register_with_identity(
    store: &mut RecordStore,
    id: u128,
    image_path: String,
    prepared: PreparedSubmission,
) -> (r: Result<(), StoreError>)
    requires
        old(store).inv(),
        prepared.wf(),
    ensures
        final(store).inv(),
        r is Err <==> old(store)@.contains_key(id),
        r is Err ==> r == Err::<(), StoreError>(StoreError::DuplicateIdentity) && final(store)@
            == old(store)@,
        r is Ok ==> {
            &&& final(store)@.dom() == old(store)@.dom().insert(id)
            &&& final(store)@[id]@ == spec_fresh_record(id, image_path@, prepared)
            &&& forall|k: u128|
                k != id && old(store)@.contains_key(k) ==> final(store)@[k] == old(store)@[k]
        },
{
    let m = Measurement::new(id, image_path, prepared.start_point, prepared.end_point);
    store.create(m)
}

/// Register a prepared submission under a freshly drawn identity and return
/// that identity. Whatever identity the random source yields, either the
/// record is created under it, exactly as [`register_with_identity`] states,
/// or the draw collided with an existing record and nothing is created — so
/// a collision presupposes an existing record, and on an empty store
/// registration always succeeds.
pub fn register_measurement(
    store: &mut RecordStore,
    image_path: String,
    prepared: PreparedSubmission,
) -> (r: Result<u128, StoreError>)
    requires
        old(store).inv(),
        prepared.wf(),
    ensures
        final(store).inv(),
        r is Err ==> r == Err::<u128, StoreError>(StoreError::DuplicateIdentity) && final(store)@
            == old(store)@,
        r is Err ==> exists|k: u128| old(store)@.contains_key(k),
        r is Ok ==> {
            &&& !old(store)@.contains_key(r.unwrap())
            &&& final(store)@.dom() == old(store)@.dom().insert(r.unwrap())
            &&& final(store)@[r.unwrap()]@ == spec_fresh_record(r.unwrap(), image_path@, prepared)
            &&& forall|k: u128|
                k != r.unwrap() && old(store)@.contains_key(k) ==> final(store)@[k] == old(
                    store,
                )@[k]
        },
{
    let id = fresh_identity();
    match register_with_identity(store, id, image_path, prepared) {
        Ok(()) => Ok(id),
        Err(e) => Err(e),
    }
}

} // verus!
