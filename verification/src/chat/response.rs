//! The chat endpoint's own response alias shape.
use vstd::prelude::*;

use crate::types::{ChatChoice, CompletionUsage};

verus! {

/// A complete chat answer, as the chat endpoint names it.
#[derive(Debug, Clone, PartialEq)]
pub struct ChatCompletionResponse {
    pub id: Option<String>,
    pub choices: Vec<ChatChoice>,
    pub created: Option<u32>,
    pub model: Option<String>,
    pub service_tier: Option<String>,
    pub system_fingerprint: Option<String>,
    pub object: Option<String>,
    pub usage: Option<CompletionUsage>,
}

} // verus!
