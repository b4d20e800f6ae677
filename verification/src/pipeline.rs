//! The pipeline orchestrator's decision logic.
//!
//! One measurement is driven from Pending to a terminal state by a unit of
//! background work that alternates external tool invocations with store
//! checkpoints. The external invocations (witness generation, proof
//! generation, verification submission) suspend, so they are performed by the
//! caller through the external tool gateway; everything decided between them
//! stands here, as functions from state and event to next state and action:
//!
//! 1. [`begin_pipeline`]: snapshot the record (abort silently when absent),
//!    move it Pending -> Processing, and hand back the pipeline input.
//! 2. The proving chain: drive [`ProvingStage`] with each tool's exit
//!    outcome; witness generation must succeed before proof generation is
//!    attempted, and either failure aborts the chain.
//! 3. [`record_proving_outcome`]: on a failed chain the record goes to
//!    Failed and verification is never submitted; on success the record
//!    stays Processing and the caller spawns the detached verification
//!    submission.
//! 4. [`record_verification_outcome`]: the submission's outcome picks the
//!    terminal status, Completed on success, Failed on any failure.
//!
//! No retries, no timeouts: each event is consumed once.

use vstd::prelude::*;
use crate::measurement::MeasurementView;
use crate::point::Point3D;
use crate::point::distance_squared;
use crate::point::spec_distance_squared;
use crate::status::Status;
use crate::store::RecordStore;
use crate::store::TransitionOutcome;

verus! {

/// An invocation of the external tool gateway within the proving chain.
#[derive(Clone, Copy, Debug, PartialEq, Eq, Structural)]
pub enum ToolStep {
    GenerateWitness,
    GenerateProof,
}

/// Where the proving chain stands between tool invocations.
#[derive(Clone, Copy, Debug, PartialEq, Eq, Structural)]
pub enum ProvingStage {
    /// Witness generation has not run yet.
    NeedWitness,
    /// The witness exists; proof generation has not run yet.
    NeedProof,
    /// Witness and proof were both generated.
    Succeeded,
    /// A tool failed; no further tool is invoked.
    Aborted,
}

impl ProvingStage {
    /// The tool to invoke next, or nothing when the chain is over.
    pub open spec fn spec_next_tool(self) -> Option<ToolStep> {
        match self {
            ProvingStage::NeedWitness => Some(ToolStep::GenerateWitness),
            ProvingStage::NeedProof => Some(ToolStep::GenerateProof),
            ProvingStage::Succeeded => None,
            ProvingStage::Aborted => None,
        }
    }

    /// Consume the outcome of the pending tool invocation: success moves the
    /// chain forward, any failure aborts it; a finished chain stays put.
    pub open spec fn spec_step(self, tool_ok: bool) -> ProvingStage {
        match self {
            ProvingStage::NeedWitness => if tool_ok {
                ProvingStage::NeedProof
            } else {
                ProvingStage::Aborted
            },
            ProvingStage::NeedProof => if tool_ok {
                ProvingStage::Succeeded
            } else {
                ProvingStage::Aborted
            },
            ProvingStage::Succeeded => ProvingStage::Succeeded,
            ProvingStage::Aborted => ProvingStage::Aborted,
        }
    }

    /// Exec twin of [`ProvingStage::spec_next_tool`].
    pub fn next_tool(self) -> (r: Option<ToolStep>)
        ensures
            r == self.spec_next_tool(),
    {
        match self {
            ProvingStage::NeedWitness => Some(ToolStep::GenerateWitness),
            ProvingStage::NeedProof => Some(ToolStep::GenerateProof),
            ProvingStage::Succeeded => None,
            ProvingStage::Aborted => None,
        }
    }

    /// Exec twin of [`ProvingStage::spec_step`].
    pub fn step(self, tool_ok: bool) -> (r: ProvingStage)
        ensures
            r == self.spec_step(tool_ok),
    {
        match self {
            ProvingStage::NeedWitness => if tool_ok {
                ProvingStage::NeedProof
            } else {
                ProvingStage::Aborted
            },
            ProvingStage::NeedProof => if tool_ok {
                ProvingStage::Succeeded
            } else {
                ProvingStage::Aborted
            },
            ProvingStage::Succeeded => ProvingStage::Succeeded,
            ProvingStage::Aborted => ProvingStage::Aborted,
        }
    }

    /// Whether the chain delivered a proof; the exec twin of comparing
    /// against [`ProvingStage::Succeeded`].
    pub fn delivered_proof(self) -> (r: bool)
        ensures
            r == (self == ProvingStage::Succeeded),
    {
        matches!(self, ProvingStage::Succeeded)
    }
}

/// The whole proving chain as a function of the two tool outcomes: it
/// succeeds exactly when witness generation and proof generation both do.
pub open spec fn spec_proving_result(witness_ok: bool, proof_ok: bool) -> ProvingStage {
    ProvingStage::NeedWitness.spec_step(witness_ok).spec_step(proof_ok)
}

/// The terminal status a measurement reaches given the outcome of each
/// external step: Completed exactly when every step succeeded.
pub open spec fn spec_final_status(witness_ok: bool, proof_ok: bool, verify_ok: bool) -> Status {
    if spec_proving_result(witness_ok, proof_ok) == ProvingStage::Succeeded {
        if verify_ok {
            Status::Completed
        } else {
            Status::Failed
        }
    } else {
        Status::Failed
    }
}

/// What the proving sub-pipeline is fed: the two normalized points and the
/// derived squared-distance public input of the circuit.
#[derive(Clone, Copy, Debug, PartialEq, Eq, Structural)]
pub struct PipelineInput {
    pub start_point: Point3D,
    pub end_point: Point3D,
    pub distance_squared: u64,
}

/// The pipeline input derived from a record's points.
pub open spec fn spec_pipeline_input(m: MeasurementView) -> PipelineInput {
    PipelineInput {
        start_point: m.start_point,
        end_point: m.end_point,
        distance_squared: spec_distance_squared(m.start_point, m.end_point) as u64,
    }
}

/// Start the pipeline for `id`: abort silently (returning `None`, changing
/// nothing) when the record is absent; otherwise move it Pending ->
/// Processing and hand back the pipeline input built from its points.
pub fn begin_pipeline(store: &mut RecordStore, id: u128) -> (r: Option<PipelineInput>)
    requires
        old(store).inv(),
    ensures
        final(store).inv(),
        r is Some <==> old(store)@.contains_key(id),
        r is None ==> final(store)@ == old(store)@,
        old(store)@.contains_key(id) ==> {
            let m = old(store)@[id];
            &&& r == Some(spec_pipeline_input(m@))
            &&& final(store)@.dom() == old(store)@.dom()
            &&& final(store)@[id]@ == if m@.status.allowed(Status::Processing) {
                m@.with_status(Status::Processing)
            } else {
                m@
            }
            &&& forall|k: u128|
                k != id && old(store)@.contains_key(k) ==> final(store)@[k] == old(store)@[k]
        },
{
    let snap = match store.snapshot(id) {
        Some(m) => m,
        None => {
            return None;
        },
    };
    store.apply_status(id, Status::Processing);
    let d = distance_squared(&snap.start_point, &snap.end_point);
    Some(
        PipelineInput {
            start_point: snap.start_point,
            end_point: snap.end_point,
            distance_squared: d,
        },
    )
}

/// What the checkpoint after the proving chain decided.
#[derive(Clone, Copy, Debug, PartialEq, Eq, Structural)]
pub enum ProvingCheckpoint {
    /// The chain delivered a proof: the record stays Processing and the
    /// caller must spawn the detached verification submission.
    VerificationDue,
    /// The chain failed: the record was moved to Failed and verification is
    /// never submitted.
    MarkedFailed,
    /// The identity names no record; nothing changed (non-fatal in
    /// background work).
    RecordMissing,
    /// The record was no longer in a status that may fail; nothing changed.
    TransitionRefused,
}

/// Checkpoint after the proving chain. A failed chain moves the record to
/// Failed and verification is never submitted; a successful chain leaves the
/// record untouched (still Processing), to be settled by the detached
/// verification submission the caller now spawns.
pub fn record_proving_outcome(store: &mut RecordStore, id: u128, delivered: bool) -> (r:
    ProvingCheckpoint)
    requires
        old(store).inv(),
    ensures
        final(store).inv(),
        delivered ==> final(store)@ == old(store)@ && r == ProvingCheckpoint::VerificationDue,
        !delivered ==> {
            &&& r != ProvingCheckpoint::VerificationDue
            &&& r == ProvingCheckpoint::RecordMissing <==> !old(store)@.contains_key(id)
            &&& r == ProvingCheckpoint::RecordMissing ==> final(store)@ == old(store)@
            &&& old(store)@.contains_key(id) ==> {
                let m = old(store)@[id];
                if m@.status.allowed(Status::Failed) {
                    &&& r == ProvingCheckpoint::MarkedFailed
                    &&& final(store)@.dom() == old(store)@.dom()
                    &&& final(store)@[id]@ == m@.with_status(Status::Failed)
                    &&& forall|k: u128|
                        k != id && old(store)@.contains_key(k) ==> final(store)@[k] == old(
                            store,
                        )@[k]
                } else {
                    &&& r == ProvingCheckpoint::TransitionRefused
                    &&& final(store)@ == old(store)@
                }
            }
        },
{
    if delivered {
        ProvingCheckpoint::VerificationDue
    } else {
        match store.apply_status(id, Status::Failed) {
            TransitionOutcome::Applied => ProvingCheckpoint::MarkedFailed,
            TransitionOutcome::Refused => ProvingCheckpoint::TransitionRefused,
            TransitionOutcome::NotFound => ProvingCheckpoint::RecordMissing,
        }
    }
}

/// Checkpoint after the detached verification submission: its outcome picks
/// the terminal status, Completed on success, Failed on any failure. An
/// unknown identity changes nothing.
pub fn record_verification_outcome(store: &mut RecordStore, id: u128, verify_ok: bool) -> (r:
    TransitionOutcome)
    requires
        old(store).inv(),
    ensures
        final(store).inv(),
        r == TransitionOutcome::NotFound <==> !old(store)@.contains_key(id),
        r == TransitionOutcome::NotFound ==> final(store)@ == old(store)@,
        old(store)@.contains_key(id) ==> {
            let m = old(store)@[id];
            let to = if verify_ok {
                Status::Completed
            } else {
                Status::Failed
            };
            if m@.status.allowed(to) {
                &&& r == TransitionOutcome::Applied
                &&& final(store)@.dom() == old(store)@.dom()
                &&& final(store)@[id]@ == m@.with_status(to)
                &&& forall|k: u128|
                    k != id && old(store)@.contains_key(k) ==> final(store)@[k] == old(store)@[k]
            } else {
                &&& r == TransitionOutcome::Refused
                &&& final(store)@ == old(store)@
            }
        },
{
    if verify_ok {
        store.apply_status(id, Status::Completed)
    } else {
        store.apply_status(id, Status::Failed)
    }
}

/// The effect of one whole pipeline run on a record's value, as the three
/// checkpoints state it: [`begin_pipeline`] moves it to Processing when that
/// step is allowed, a failed proving chain moves it to Failed, a delivered
/// proof leaves it to the verification outcome.
pub open spec fn spec_orchestrated(
    m: MeasurementView,
    witness_ok: bool,
    proof_ok: bool,
    verify_ok: bool,
) -> MeasurementView {
    let processing = if m.status.allowed(Status::Processing) {
        m.with_status(Status::Processing)
    } else {
        m
    };
    if spec_proving_result(witness_ok, proof_ok) == ProvingStage::Succeeded {
        let to = if verify_ok {
            Status::Completed
        } else {
            Status::Failed
        };
        if processing.status.allowed(to) {
            processing.with_status(to)
        } else {
            processing
        }
    } else {
        if processing.status.allowed(Status::Failed) {
            processing.with_status(Status::Failed)
        } else {
            processing
        }
    }
}

/// A record that is Pending when its pipeline starts ends the run with
/// exactly the terminal status the three step outcomes determine — Completed
/// when all succeed, Failed otherwise — and with every other field
/// untouched.
pub proof fn lemma_pipeline_settles_pending(
    m: MeasurementView,
    witness_ok: bool,
    proof_ok: bool,
    verify_ok: bool,
)
    requires
        m.status == Status::Pending,
    ensures
        spec_orchestrated(m, witness_ok, proof_ok, verify_ok) == m.with_status(
            spec_final_status(witness_ok, proof_ok, verify_ok),
        ),
{
}

/// If witness generation fails, the chain is aborted at once and proof
/// generation is never attempted: no stage but a fresh chain with a
/// successful witness ever asks for the proof tool, and an aborted chain
/// asks for nothing and ends the measurement Failed whatever the later
/// outcomes would have been.
pub proof fn lemma_witness_failure_skips_proof(proof_ok: bool, verify_ok: bool)
    ensures
        ProvingStage::NeedWitness.spec_step(false) == ProvingStage::Aborted,
        ProvingStage::Aborted.spec_next_tool() is None,
        forall|s: ProvingStage, e: bool|
            #[trigger] s.spec_step(e) == ProvingStage::NeedProof ==> s
                == ProvingStage::NeedWitness && e,
        spec_final_status(false, proof_ok, verify_ok) == Status::Failed,
{
}

/// The pipeline ends Completed exactly when witness generation, proof
/// generation and verification submission all succeed; in particular a
/// failed verification submission ends the measurement Failed, never
/// Completed, even though its proof was generated.
pub proof fn lemma_completion_needs_every_step(witness_ok: bool, proof_ok: bool, verify_ok: bool)
    ensures
        spec_final_status(witness_ok, proof_ok, verify_ok) == Status::Completed <==> (witness_ok
            && proof_ok && verify_ok),
        spec_final_status(witness_ok, proof_ok, verify_ok) is Completed
            || spec_final_status(witness_ok, proof_ok, verify_ok) is Failed,
        witness_ok && proof_ok && !verify_ok ==> spec_final_status(witness_ok, proof_ok, verify_ok)
            == Status::Failed,
{
}

} // verus!
