//! Batch-chained generation and verification of zero-knowledge proofs for a
//! bounded guest computation.
//!
//! A single logical execution of an opaque guest program is split into an
//! ordered sequence of proving sessions. Each session consumes one batch of
//! token codes and a program image, and yields a new image, an output payload
//! and a completion status. This crate holds the protocol around that opaque
//! backend: splitting the token stream, persisting mid-run images, enforcing
//! digest continuity across consecutive receipts, and certifying the final
//! receipt of a chain.

pub mod batch;
pub mod chain;
pub mod checkpoint;
pub mod digest;
pub mod errors;
pub mod outcome;
pub mod pipeline;
pub mod receipt;
pub mod zk;
