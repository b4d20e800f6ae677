use zkp_pipeline::measurement::{Attestation, Measurement};
use zkp_pipeline::status::Status;
use zkp_pipeline::store::{RecordStore, StoreError, TransitionOutcome};

fn point(x: i64, y: i64, z: i64) -> zkp_pipeline::point::Point3D {
    zkp_pipeline::point::Point3D { x, y, z }
}

fn fresh(id: u128) -> Measurement {
    Measurement::new(id, format!("uploads/{}.jpg", id), point(0, 0, 0), point(100_000, 0, 0))
}

fn attestation(attestation_id: u64) -> Attestation {
    Attestation {
        attestation_id,
        merkle_path: vec!["ab".to_string(), "cd".to_string()],
        leaf_count: 8,
        index: 3,
    }
}

#[test]
fn create_and_snapshot_round_trip() {
    let mut store = RecordStore::new();
    assert!(!store.contains(7));
    store.create(fresh(7)).unwrap();
    assert!(store.contains(7));
    let snap = store.snapshot(7).unwrap();
    assert_eq!(snap.id, 7);
    assert_eq!(snap.image_path, "uploads/7.jpg");
    assert_eq!(snap.status, Status::Pending);
    assert!(snap.attestation.is_none());
}

#[test]
fn duplicate_identity_is_refused() {
    let mut store = RecordStore::new();
    store.create(fresh(7)).unwrap();
    let mut other = fresh(7);
    other.image_path = "uploads/other.jpg".to_string();
    assert_eq!(store.create(other), Err(StoreError::DuplicateIdentity));
    // The first record is untouched.
    assert_eq!(store.snapshot(7).unwrap().image_path, "uploads/7.jpg");
}

#[test]
fn unknown_identity_yields_not_found() {
    let mut store = RecordStore::new();
    store.create(fresh(1)).unwrap();
    assert!(store.snapshot(99).is_none());
    assert_eq!(store.apply_status(99, Status::Processing), TransitionOutcome::NotFound);
    assert_eq!(store.attach_attestation(99, attestation(5)), Err(StoreError::NotFound));
    assert!(!store.needs_attestation(99));
    // The known record is untouched by the failed probes.
    assert_eq!(store.snapshot(1).unwrap().status, Status::Pending);
}

#[test]
fn status_follows_the_lifecycle_path() {
    let mut store = RecordStore::new();
    store.create(fresh(1)).unwrap();
    // Skipping Processing is refused.
    assert_eq!(store.apply_status(1, Status::Completed), TransitionOutcome::Refused);
    assert_eq!(store.apply_status(1, Status::Failed), TransitionOutcome::Refused);
    assert_eq!(store.apply_status(1, Status::Processing), TransitionOutcome::Applied);
    assert_eq!(store.snapshot(1).unwrap().status, Status::Processing);
    // Moving backward is refused.
    assert_eq!(store.apply_status(1, Status::Processing), TransitionOutcome::Refused);
    assert_eq!(store.apply_status(1, Status::Completed), TransitionOutcome::Applied);
    assert_eq!(store.snapshot(1).unwrap().status, Status::Completed);
    // Completed is terminal.
    assert_eq!(store.apply_status(1, Status::Processing), TransitionOutcome::Refused);
    assert_eq!(store.apply_status(1, Status::Failed), TransitionOutcome::Refused);
    assert_eq!(store.snapshot(1).unwrap().status, Status::Completed);
}

#[test]
fn advance_refuses_every_step_off_the_path() {
    assert_eq!(Status::Pending.advance(Status::Processing), (Status::Processing, true));
    assert_eq!(Status::Pending.advance(Status::Completed), (Status::Pending, false));
    assert_eq!(Status::Processing.advance(Status::Failed), (Status::Failed, true));
    assert_eq!(Status::Failed.advance(Status::Processing), (Status::Failed, false));
    assert_eq!(Status::Completed.advance(Status::Failed), (Status::Completed, false));
    assert!(Status::Completed.terminal());
    assert!(Status::Failed.terminal());
    assert!(!Status::Pending.terminal());
    assert!(!Status::Processing.terminal());
}

#[test]
fn three_records_stay_independent() {
    let mut store = RecordStore::new();
    for id in [1u128, 2, 3] {
        let mut m = fresh(id);
        m.start_point = point(id as i64, 0, 0);
        store.create(m).unwrap();
    }
    store.apply_status(2, Status::Processing);
    store.apply_status(2, Status::Failed);
    for id in [1u128, 2, 3] {
        let snap = store.snapshot(id).unwrap();
        assert_eq!(snap.id, id);
        assert_eq!(snap.start_point, point(id as i64, 0, 0));
        assert_eq!(snap.image_path, format!("uploads/{}.jpg", id));
    }
    assert_eq!(store.snapshot(1).unwrap().status, Status::Pending);
    assert_eq!(store.snapshot(2).unwrap().status, Status::Failed);
    assert_eq!(store.snapshot(3).unwrap().status, Status::Pending);
}

#[test]
fn attestation_is_attached_only_once() {
    let mut store = RecordStore::new();
    store.create(fresh(1)).unwrap();
    // Not Completed yet: nothing to probe, nothing attached.
    assert!(!store.needs_attestation(1));
    store.attach_attestation(1, attestation(10)).unwrap();
    assert!(store.snapshot(1).unwrap().attestation.is_none());

    store.apply_status(1, Status::Processing);
    store.apply_status(1, Status::Completed);
    assert!(store.needs_attestation(1));
    store.attach_attestation(1, attestation(10)).unwrap();
    let first = store.snapshot(1).unwrap().attestation.unwrap();
    assert_eq!(first.attestation_id, 10);
    assert_eq!(first.merkle_path, vec!["ab".to_string(), "cd".to_string()]);
    assert_eq!(first.leaf_count, 8);
    assert_eq!(first.index, 3);

    // A later probe never alters what is set, and status is unchanged.
    assert!(!store.needs_attestation(1));
    store.attach_attestation(1, attestation(99)).unwrap();
    let again = store.snapshot(1).unwrap();
    assert_eq!(again.attestation.unwrap().attestation_id, 10);
    assert_eq!(again.status, Status::Completed);
}

#[test]
fn failed_record_never_gets_attestation() {
    let mut store = RecordStore::new();
    store.create(fresh(1)).unwrap();
    store.apply_status(1, Status::Processing);
    store.apply_status(1, Status::Failed);
    assert!(!store.needs_attestation(1));
    store.attach_attestation(1, attestation(4)).unwrap();
    assert!(store.snapshot(1).unwrap().attestation.is_none());
}
