//! The failure taxonomy of a proving run.
//!
//! Every variant is fatal to the run it occurs in: failures are never retried
//! or downgraded, and no partially verified chain is ever reported accepted.

use vstd::prelude::*;

verus! {

/// A fatal failure of a proving run.
#[derive(Clone, Copy, Debug, PartialEq, Eq, Structural)]
pub enum RunError {
    /// The proof script is missing, unreadable or malformed.
    InputError,
    /// The requested batching contradicts a checkpoint's recorded progress.
    InvalidSplit,
    /// A persisted checkpoint is missing or malformed.
    CheckpointReadError,
    /// A checkpoint could not be written durably.
    CheckpointWriteError,
    /// The guest trapped or reported an unexpected completion status.
    GuestExecutionError,
    /// A freshly generated receipt failed its own integrity self-check.
    ProofIntegrityError,
    /// A receipt's claimed pre-image digest does not match the expected one.
    ChainContinuityError,
    /// The final receipt failed full cryptographic verification.
    FinalVerificationError,
    /// The guest's reported outcome does not establish the requested theorem.
    TargetMismatchError,
}

impl RunError {
    /// A short human-readable name for diagnostics.
    pub fn describe(&self) -> (r: &'static str)
    {
        match self {
            RunError::InputError => "input error",
            RunError::InvalidSplit => "invalid split",
            RunError::CheckpointReadError => "checkpoint read error",
            RunError::CheckpointWriteError => "checkpoint write error",
            RunError::GuestExecutionError => "guest execution error",
            RunError::ProofIntegrityError => "proof integrity error",
            RunError::ChainContinuityError => "chain continuity error",
            RunError::FinalVerificationError => "final verification error",
            RunError::TargetMismatchError => "target mismatch",
        }
    }
}

} // verus!
