//! Core of a batch linter and source verifier for packages:
//! selecting a working set, the phase preflight, the per-package outcome
//! records, and their reduction into one verdict.

pub mod package;
pub mod batch;
pub mod filter;
pub mod lint;
pub mod pattern;
pub mod phases;
pub mod source;

