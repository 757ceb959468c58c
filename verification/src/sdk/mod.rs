//! What a client of the prover chooses before a proof is made.

pub mod local;
pub mod mode;

pub use local::{download_progress, LocalProverBuilder, LocalRequestOptions, ProofOpts};
pub use mode::Mode;
