//! Well-known supported-operation bit flags of `ModelCommitment::supported_ops`.
use vstd::prelude::*;

verus! {

/// Plain inference.
pub const INFER: u64 = 1;
/// Embedding generation.
pub const EMBED: u64 = 2;
/// Vector search.
pub const VECTOR_SEARCH: u64 = 4;
/// Fine-tuning.
pub const FINE_TUNE: u64 = 8;

} // verus!
