//! The deprecated single-function shape.
use vstd::prelude::*;

verus! {

/// A function the model may call, in the deprecated non-tool shape.
#[derive(Debug, Clone, PartialEq)]
pub struct ChatFunction {
    pub name: String,
    pub description: Option<String>,
    pub parameters: Option<serde_json::Value>,
}

} // verus!
