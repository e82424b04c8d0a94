//! Privacy-preserving, keyed fingerprints and immutable records for local
//! prompt-cache diagnostics, together with the request-queue and context
//! helpers that feed them.

pub mod encoding;
pub mod fingerprint;
pub mod types;
pub mod manifest;
pub mod transport;
pub mod tools;
pub mod logical;
pub mod key;
pub mod writer;
pub mod attempt;
pub mod observer;
pub mod runtime;
pub mod exec_completion;
pub mod input_queue;
pub mod admission;
pub mod skills;
