//! A tool the model may call.
use vstd::prelude::*;

verus! {

/// The mathematical content of a [`ChatToolFunction`].
pub struct ChatToolFunctionView {
    pub name: Seq<char>,
    pub description: Option<Seq<char>>,
    pub parameters: Option<serde_json::Value>,
    pub strict: Option<bool>,
}

/// A function tool: name, optional description, an optional JSON-schema
/// object for its parameters, and the strictness flag.
#[derive(Debug)]
pub struct ChatToolFunction {
    pub name: String,
    pub description: Option<String>,
    pub parameters: Option<serde_json::Value>,
    pub strict: Option<bool>,
}

impl View for ChatToolFunction {
    type V = ChatToolFunctionView;

    open spec fn view(&self) -> ChatToolFunctionView {
        ChatToolFunctionView {
            name: self.name@,
            description: match self.description {
                Some(ref d) => Some(d@),
                None => None,
            },
            parameters: self.parameters,
            strict: self.strict,
        }
    }
}

impl Clone for ChatToolFunction {
    fn clone(&self) -> (r: Self)
        ensures
            r@ == self@,
    {
        ChatToolFunction {
            name: self.name.clone(),
            description: match &self.description {
                Some(d) => Some(d.clone()),
                None => None,
            },
            parameters: match &self.parameters {
                Some(v) => Some(v.clone()),
                None => None,
            },
            strict: self.strict,
        }
    }
}

impl ChatToolFunction {
    /// A function tool with only its name set.
    pub fn new(name: &str) -> (r: Self)
        ensures
            r@.name == name@,
            r@.description is None,
            r@.parameters is None,
            r@.strict is None,
    {
        ChatToolFunction { name: name.to_owned(), description: None, parameters: None, strict: None }
    }

    /// The same tool with a description.
    pub fn description(self, description: &str) -> (r: Self)
        ensures
            r@ == (ChatToolFunctionView { description: Some(description@), ..self@ }),
    {
        ChatToolFunction { description: Some(description.to_owned()), ..self }
    }

    /// The same tool with the strictness flag set.
    pub fn strict(self, value: bool) -> (r: Self)
        ensures
            r@ == (ChatToolFunctionView { strict: Some(value), ..self@ }),
    {
        ChatToolFunction { strict: Some(value), ..self }
    }

    /// The same tool with a parameter schema.
    pub fn parameters(self, parameters: serde_json::Value) -> (r: Self)
        ensures
            r@ == (ChatToolFunctionView { parameters: Some(parameters), ..self@ }),
    {
        ChatToolFunction { parameters: Some(parameters), ..self }
    }

    /// The tool wrapped in its tagged form.
    pub fn into_tool(self) -> (r: ChatTool)
        ensures
            r@ == (ChatToolView::Function { function: self@ }),
    {
        ChatTool::Function { function: self }
    }
}

/// The mathematical content of a [`ChatTool`].
pub enum ChatToolView {
    Function { function: ChatToolFunctionView },
}

/// A tool, tagged with its kind; only functions exist today.
#[derive(Debug)]
pub enum ChatTool {
    Function { function: ChatToolFunction },
}

impl View for ChatTool {
    type V = ChatToolView;

    open spec fn view(&self) -> ChatToolView {
        match self {
            ChatTool::Function { function } => ChatToolView::Function { function: function@ },
        }
    }
}

impl Clone for ChatTool {
    fn clone(&self) -> (r: Self)
        ensures
            r@ == self@,
    {
        match self {
            ChatTool::Function { function } => ChatTool::Function { function: function.clone() },
        }
    }
}

} // verus!
