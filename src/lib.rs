//! Batch integrity: Merkle roots over ordered file contents, batch records
//! that bind a root to a batch, and the verification of a batch against its
//! stored and anchored roots.
pub mod batch;
pub mod config;
pub mod digest;
pub mod merkle;
pub mod verification;
