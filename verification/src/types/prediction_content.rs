//! Static predicted output content.
use vstd::prelude::*;

verus! {

/// One typed part of predicted content; only text exists today.
#[derive(Debug, Clone, PartialEq)]
pub enum PredictionContentPart {
    Text { text: String },
}

/// The content to match when generating: one text, or typed parts.
#[derive(Debug, Clone, PartialEq)]
pub enum PredictionContentContent {
    Text(String),
    Array(Vec<PredictionContentPart>),
}

/// Predicted output content, tagged with its kind.
#[derive(Debug, Clone, PartialEq)]
pub enum PredictionContent {
    Content(PredictionContentContent),
}

impl PredictionContent {
    /// Predicted content holding one text.
    pub fn text(s: &str) -> (r: Self)
        ensures
            r matches PredictionContent::Content(c) && (c matches PredictionContentContent::Text(t)
                && t@ == s@),
    {
        PredictionContent::Content(PredictionContentContent::Text(s.to_owned()))
    }
}

impl Default for PredictionContent {
    fn default() -> (r: Self)
        ensures
            r matches PredictionContent::Content(c) && (c matches PredictionContentContent::Text(t)
                && t@.len() == 0),
    {
        PredictionContent::Content(PredictionContentContent::Text(String::new()))
    }
}

} // verus!
