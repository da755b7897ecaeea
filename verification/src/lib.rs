//! Orchestration core of a zkVM benchmarking harness.
//!
//! The harness runs a guest program on a proving backend and reports how
//! it went: cycles, durations, proof sizes, throughput. This crate holds
//! its decisions, and none of its effects. An evaluator is a state machine:
//! it is fed how the last outside action went (a file read, an upload, a
//! status request, a pause) and answers with the next action to perform,
//! until it hands out a complete [`PerformanceReport`] or a fatal
//! [`EvalError`]. The caller owns the file system, the network client, the
//! local executor, the decoder and the verifier of receipts, the clock and
//! the subprocess. Every path that the crate names is one from the working
//! directory.
//!
//! - [`evaluator`] picks the evaluator of the selected backend;
//!   [`bento`] and [`zisk`] are the two backends.
//! - [`job`] is the life of one remote proving job under polling.
//! - [`protocol`] holds the actions and events that are exchanged.
//! - [`report`] normalizes what was measured into the one report.
//! - [`utils`] names the artifacts of a run and times operations.
//! - [`benchmarks`] is what the guest programs compute.
//! - [`risc0`] is what is asked of outside crates, taken on trust.

pub mod args;
pub mod benchmarks;
pub mod bento;
pub mod error;
pub mod evaluator;
pub mod job;
pub mod protocol;
pub mod report;
pub mod risc0;
pub mod text;
pub mod types;
pub mod utils;
pub mod zisk;

pub use args::EvalArgs;
pub use bento::BentoEvaluator;
pub use error::EvalError;
pub use report::{Measurements, PerformanceReport};
pub use types::{ProgramId, ProverId};
pub use zisk::ZiskEvaluator;
