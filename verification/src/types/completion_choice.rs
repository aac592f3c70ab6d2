//! One choice of a plain completion response.
use vstd::prelude::*;

verus! {

/// Log-probability information for a completion, without the
/// probabilities themselves.
#[derive(Debug, Clone, PartialEq)]
pub struct CompletionLogprobs {
    pub tokens: Vec<String>,
    pub top_logprobs: Vec<serde_json::Value>,
    pub text_offset: Vec<u32>,
}

/// One choice the model generated for the prompt.
#[derive(Debug, Clone, PartialEq)]
pub struct CompletionChoice {
    pub finish_reason: Option<String>,
    pub text: Option<String>,
    pub index: Option<u32>,
    pub logprobs: Option<CompletionLogprobs>,
}

} // verus!
