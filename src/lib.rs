//! Orchestration of external theorem provers: statements are translated into each prover's
//! input language, the provers' answers are normalised into one result taxonomy, and results
//! are cached by statement. The library makes every decision; the host that embeds it probes
//! executables, writes query files and runs processes, and hands back what it observed.

pub mod engine;
pub mod laws;
pub mod lean;
pub mod prover;
pub mod result;
pub mod text;
pub mod z3;

pub use engine::{EngineStep, ProofEngine, Prover};
pub use lean::LeanProver;
pub use prover::{permits_execution, BackendStep, Invocation, RunFailure, RunOutput, TheoremProver};
pub use result::{ProofResult, ProofStatus};
pub use z3::Z3Prover;
