//! A tool call repeated back in an assistant message.
use vstd::prelude::*;

verus! {

/// The kind of a tool; only functions exist today.
#[derive(Debug, Clone, Copy, PartialEq, Eq, Structural)]
pub enum ToolType {
    Function,
}

impl Default for ToolType {
    fn default() -> (r: Self)
        ensures
            r == ToolType::Function,
    {
        ToolType::Function
    }
}

/// The function called, with its serialized arguments.
#[derive(Debug, Clone, PartialEq)]
pub struct AssistantFunctionCall {
    pub name: String,
    pub arguments: String,
}

/// One tool call an assistant message repeats back.
#[derive(Debug, Clone, PartialEq)]
pub struct AssistantToolCall {
    pub id: String,
    pub kind: ToolType,
    pub function: AssistantFunctionCall,
}

} // verus!
