//! Token usage statistics attached to responses.
use vstd::prelude::*;

verus! {

/// Usage statistics for a completed call.
#[derive(Debug, Clone, PartialEq)]
pub struct CompletionUsage {
    pub prompt_tokens: Option<u32>,
    pub completion_tokens: Option<u32>,
    pub total_tokens: Option<u32>,
}

/// Usage statistics attached to a streamed call's final chunk.
#[derive(Debug, Clone, PartialEq)]
pub struct CompletionUsageStream {
    pub prompt_tokens: Option<u32>,
    pub completion_tokens: Option<u32>,
    pub total_tokens: Option<u32>,
}

} // verus!
