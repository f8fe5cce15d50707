//! Client-side types for a chat-completion service, and the verified logic
//! that folds streamed completion fragments into one completion.
use vstd::prelude::*;

pub mod chat;
pub mod merge;
pub mod finalize;
pub mod stream;
pub mod request;
pub mod embeddings;

verus! {

/// Token counters reported by the service for one request.
#[derive(Debug, Clone, Copy, PartialEq, Eq, Structural)]
pub struct Usage {
    pub prompt_tokens: u32,
    pub completion_tokens: u32,
    pub total_tokens: u32,
}

/// The key and the base address used to reach the service.
#[derive(Debug, Clone, PartialEq, Eq)]
pub struct Credentials {
    pub api_key: String,
    pub base_url: String,
}

impl Credentials {
    /// Credentials made of the given key and base address.
    pub fn new(api_key: &str, base_url: &str) -> (r: Credentials)
        ensures
            r.api_key@ == api_key@,
            r.base_url@ == base_url@,
    {
        Credentials { api_key: api_key.to_owned(), base_url: base_url.to_owned() }
    }
}

} // verus!
