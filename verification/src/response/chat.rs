//! The typed chat responses: one complete answer, or one streamed
//! chunk.
use vstd::prelude::*;

use super::Respondable;
use crate::types::{ChatChoice, ChatChoiceStream, CompletionUsage, CompletionUsageStream};

verus! {

/// A complete chat answer.
#[derive(Debug, Clone, PartialEq)]
pub struct ChatResponse {
    pub id: Option<String>,
    pub choices: Vec<ChatChoice>,
    pub created: Option<u32>,
    pub model: Option<String>,
    pub service_tier: Option<String>,
    pub system_fingerprint: Option<String>,
    pub object: Option<String>,
    pub usage: Option<CompletionUsage>,
}

/// One chunk of a streamed chat answer.
#[derive(Debug, Clone, PartialEq)]
pub struct ChatResponseStream {
    pub id: Option<String>,
    pub choices: Vec<ChatChoiceStream>,
    pub created: Option<u32>,
    pub model: Option<String>,
    pub service_tier: Option<String>,
    pub system_fingerprint: Option<String>,
    pub object: Option<String>,
    pub usage: Option<CompletionUsageStream>,
}

impl Respondable for ChatResponse {
    fn is_success(&self) -> (r: bool) {
        true
    }
}

impl Respondable for ChatResponseStream {
    fn is_success(&self) -> (r: bool) {
        true
    }
}

} // verus!
