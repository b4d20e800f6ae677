//! Core of a measurement proof pipeline: a record store keyed by measurement
//! identity, a monotonic status state machine, a coordinate normalizer for the
//! fixed-point domain of the proving circuit, a pipeline orchestrator's
//! decision logic, and a best-effort attestation merger.

pub mod ingest;
pub mod inputfmt;
pub mod measurement;
pub mod pipeline;
pub mod point;
pub mod status;
pub mod store;

pub use point::Point3D;
pub use point::RawPoint;
pub use status::Status;
