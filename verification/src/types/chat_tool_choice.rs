//! How the model is told which tool to use.
use vstd::prelude::*;

verus! {

/// The tool named by the caller.
#[derive(Debug, Clone, PartialEq)]
pub struct ChatToolChoiceFunction {
    pub name: String,
}

/// One named tool option, tagged with its kind.
#[derive(Debug, Clone, PartialEq)]
pub enum ChatToolChoiceNamedOption {
    Function { function: ChatToolChoiceFunction },
}

/// No tool, the model's choice, a required tool, or one named tool.
#[derive(Debug, Clone, PartialEq)]
pub enum ChatToolChoice {
    NoTool,
    Auto,
    Required,
    Function(ChatToolChoiceNamedOption),
}

impl Default for ChatToolChoice {
    fn default() -> (r: Self)
        ensures
            r matches ChatToolChoice::NoTool,
    {
        ChatToolChoice::NoTool
    }
}

} // verus!
