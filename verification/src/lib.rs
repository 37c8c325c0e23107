//! Configuration-driven dispatch layer for pairwise sequence alignment.
//!
//! The crate models the pure core of an aligner front-end: a builder that
//! accumulates alignment options under mutual-exclusion rules, a resolver
//! that encodes the accumulated configuration into the canonical backend
//! entry-point identifier, a substitution-matrix value type with
//! copy-on-write semantics, a query-profile builder, and a result type
//! whose accessors are gated on the capabilities the configuration asked
//! for. The native alignment kernels themselves are reached through an
//! unverified shim that consumes the identifiers and plain values this
//! crate produces.

pub mod aligner;
pub mod alignment;
pub mod error;
pub mod matrix;
pub mod profile;

pub use aligner::Aligner;
pub use aligner::Gap;
pub use alignment::Alignment;
pub use error::Error;
pub use matrix::Matrix;
pub use profile::Profile;

use vstd::prelude::*;

verus! {

/// SIMD instruction-set families a configuration may pin explicitly.
#[derive(Debug, Clone, Copy, PartialEq, Eq, Structural)]
pub enum InstructionSet {
    SSE2,
    SSE41,
    AVX2,
    AltiVec,
    Neon,
}

} // verus!
