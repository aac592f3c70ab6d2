//! The plain completion response.
use vstd::prelude::*;

use crate::response::Respondable;
use crate::types::{CompletionChoice, CompletionUsage};

verus! {

/// A complete text-completion answer.
#[derive(Debug, Clone, PartialEq)]
pub struct CompletionResponse {
    pub id: Option<String>,
    pub choices: Vec<CompletionChoice>,
    pub created: Option<u32>,
    pub model: Option<String>,
    pub system_fingerprint: Option<String>,
    pub object: Option<String>,
    pub usage: Option<CompletionUsage>,
}

impl Respondable for CompletionResponse {
    fn is_success(&self) -> (r: bool) {
        true
    }
}

} // verus!
