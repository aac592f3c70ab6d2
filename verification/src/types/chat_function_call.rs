//! How the model is told which function to call, in the deprecated
//! shape.
use vstd::prelude::*;

verus! {

/// The function named by the caller.
#[derive(Debug, Clone, PartialEq)]
pub struct ChatFunctionCallFunction {
    pub name: String,
}

/// No function, the model's choice, or one named function.
#[derive(Debug, Clone, PartialEq)]
pub enum ChatFunctionCall {
    NoCall,
    Auto,
    Function(ChatFunctionCallFunction),
}

impl Default for ChatFunctionCall {
    fn default() -> (r: Self)
        ensures
            r matches ChatFunctionCall::NoCall,
    {
        ChatFunctionCall::NoCall
    }
}

} // verus!
