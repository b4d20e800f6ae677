use zkp_pipeline::measurement::Measurement;
use zkp_pipeline::pipeline::{
    begin_pipeline, record_proving_outcome, record_verification_outcome, ProvingCheckpoint,
    ProvingStage, ToolStep,
};
use zkp_pipeline::point::Point3D;
use zkp_pipeline::status::Status;
use zkp_pipeline::store::{RecordStore, TransitionOutcome};

fn seeded_store(id: u128) -> RecordStore {
    let mut store = RecordStore::new();
    let m = Measurement::new(
        id,
        format!("uploads/{}.jpg", id),
        Point3D { x: 0, y: 0, z: 0 },
        Point3D { x: 100_000, y: 0, z: 0 },
    );
    store.create(m).unwrap();
    store
}

#[test]
fn begin_moves_pending_to_processing_and_builds_input() {
    let mut store = seeded_store(1);
    let input = begin_pipeline(&mut store, 1).unwrap();
    assert_eq!(input.start_point, Point3D { x: 0, y: 0, z: 0 });
    assert_eq!(input.end_point, Point3D { x: 100_000, y: 0, z: 0 });
    assert_eq!(input.distance_squared, 10_000_000_000u64);
    assert_eq!(store.snapshot(1).unwrap().status, Status::Processing);
}

#[test]
fn begin_aborts_silently_on_unknown_identity() {
    let mut store = seeded_store(1);
    assert!(begin_pipeline(&mut store, 42).is_none());
    assert_eq!(store.snapshot(1).unwrap().status, Status::Pending);
}

#[test]
fn proving_chain_runs_witness_then_proof() {
    let stage = ProvingStage::NeedWitness;
    assert_eq!(stage.next_tool(), Some(ToolStep::GenerateWitness));
    let stage = stage.step(true);
    assert_eq!(stage, ProvingStage::NeedProof);
    assert_eq!(stage.next_tool(), Some(ToolStep::GenerateProof));
    let stage = stage.step(true);
    assert_eq!(stage, ProvingStage::Succeeded);
    assert_eq!(stage.next_tool(), None);
    assert!(stage.delivered_proof());
}

#[test]
fn witness_failure_aborts_before_proof_generation() {
    let stage = ProvingStage::NeedWitness.step(false);
    assert_eq!(stage, ProvingStage::Aborted);
    // Proof generation is never attempted.
    assert_eq!(stage.next_tool(), None);
    assert!(!stage.delivered_proof());

    let mut store = seeded_store(1);
    begin_pipeline(&mut store, 1).unwrap();
    let checkpoint = record_proving_outcome(&mut store, 1, stage.delivered_proof());
    assert_eq!(checkpoint, ProvingCheckpoint::MarkedFailed);
    assert_eq!(store.snapshot(1).unwrap().status, Status::Failed);
}

#[test]
fn proof_failure_aborts_the_chain() {
    let stage = ProvingStage::NeedWitness.step(true).step(false);
    assert_eq!(stage, ProvingStage::Aborted);
    assert_eq!(stage.next_tool(), None);
}

#[test]
fn verification_failure_ends_failed_not_completed() {
    let mut store = seeded_store(1);
    begin_pipeline(&mut store, 1).unwrap();
    let checkpoint = record_proving_outcome(&mut store, 1, true);
    assert_eq!(checkpoint, ProvingCheckpoint::VerificationDue);
    assert_eq!(store.snapshot(1).unwrap().status, Status::Processing);
    let outcome = record_verification_outcome(&mut store, 1, false);
    assert_eq!(outcome, TransitionOutcome::Applied);
    assert_eq!(store.snapshot(1).unwrap().status, Status::Failed);
    // Failed is terminal: a stray later success changes nothing.
    assert_eq!(record_verification_outcome(&mut store, 1, true), TransitionOutcome::Refused);
    assert_eq!(store.snapshot(1).unwrap().status, Status::Failed);
}

#[test]
fn full_success_ends_completed() {
    let mut store = seeded_store(1);
    begin_pipeline(&mut store, 1).unwrap();
    assert_eq!(record_proving_outcome(&mut store, 1, true), ProvingCheckpoint::VerificationDue);
    assert_eq!(record_verification_outcome(&mut store, 1, true), TransitionOutcome::Applied);
    assert_eq!(store.snapshot(1).unwrap().status, Status::Completed);
}

#[test]
fn checkpoints_on_unknown_identity_change_nothing() {
    let mut store = seeded_store(1);
    assert_eq!(record_proving_outcome(&mut store, 42, false), ProvingCheckpoint::RecordMissing);
    assert_eq!(record_verification_outcome(&mut store, 42, true), TransitionOutcome::NotFound);
    assert_eq!(store.snapshot(1).unwrap().status, Status::Pending);
}

#[test]
fn pipelines_of_distinct_measurements_do_not_interfere() {
    let mut store = seeded_store(1);
    let m2 = Measurement::new(
        2,
        "uploads/2.jpg".to_string(),
        Point3D { x: 5, y: 5, z: 5 },
        Point3D { x: 5, y: 5, z: 6 },
    );
    store.create(m2).unwrap();

    begin_pipeline(&mut store, 1).unwrap();
    begin_pipeline(&mut store, 2).unwrap();
    record_proving_outcome(&mut store, 1, false);
    record_proving_outcome(&mut store, 2, true);
    record_verification_outcome(&mut store, 2, true);

    assert_eq!(store.snapshot(1).unwrap().status, Status::Failed);
    assert_eq!(store.snapshot(2).unwrap().status, Status::Completed);
    assert_eq!(store.snapshot(2).unwrap().end_point, Point3D { x: 5, y: 5, z: 6 });
}
