//! Counters of an embeddings request.
use vstd::prelude::*;

verus! {

/// Token counters of an embeddings request.
#[derive(Debug, Clone, Copy, PartialEq, Eq, Structural)]
pub struct EmbeddingsUsage {
    pub prompt_tokens: u32,
    pub total_tokens: u32,
}

} // verus!
