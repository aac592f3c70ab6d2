//! The format the model must answer in.
use vstd::prelude::*;

verus! {

/// The mathematical content of a [`JsonSchema`].
pub struct JsonSchemaView {
    pub description: Option<Seq<char>>,
    pub name: Seq<char>,
    pub schema: Option<serde_json::Value>,
    pub strict: Option<bool>,
}

/// A named JSON schema the response must match.
#[derive(Debug)]
pub struct JsonSchema {
    pub description: Option<String>,
    pub name: String,
    pub schema: Option<serde_json::Value>,
    pub strict: Option<bool>,
}

impl View for JsonSchema {
    type V = JsonSchemaView;

    open spec fn view(&self) -> JsonSchemaView {
        JsonSchemaView {
            description: match self.description {
                Some(ref d) => Some(d@),
                None => None,
            },
            name: self.name@,
            schema: self.schema,
            strict: self.strict,
        }
    }
}

impl Clone for JsonSchema {
    fn clone(&self) -> (r: Self)
        ensures
            r@ == self@,
    {
        JsonSchema {
            description: match &self.description {
                Some(d) => Some(d.clone()),
                None => None,
            },
            name: self.name.clone(),
            schema: match &self.schema {
                Some(v) => Some(v.clone()),
                None => None,
            },
            strict: self.strict,
        }
    }
}

impl JsonSchema {
    /// A schema with only its name set.
    pub fn new(name: &str) -> (r: Self)
        ensures
            r@.name == name@,
            r@.description is None,
            r@.schema is None,
            r@.strict is None,
    {
        JsonSchema { description: None, name: name.to_owned(), schema: None, strict: None }
    }

    /// The same schema with a description.
    pub fn description(self, description: &str) -> (r: Self)
        ensures
            r@ == (JsonSchemaView { description: Some(description@), ..self@ }),
    {
        JsonSchema { description: Some(description.to_owned()), ..self }
    }

    /// The same schema with the strictness flag set.
    pub fn strict(self, value: bool) -> (r: Self)
        ensures
            r@ == (JsonSchemaView { strict: Some(value), ..self@ }),
    {
        JsonSchema { strict: Some(value), ..self }
    }

    /// The same schema with its body set.
    pub fn schema(self, schema: serde_json::Value) -> (r: Self)
        ensures
            r@ == (JsonSchemaView { schema: Some(schema), ..self@ }),
    {
        JsonSchema { schema: Some(schema), ..self }
    }

    /// The schema wrapped in its tagged response-format form.
    pub fn into_format(self) -> (r: ChatResponseFormat)
        ensures
            r@ == (ChatResponseFormatView::JsonSchema { json_schema: self@ }),
    {
        ChatResponseFormat::JsonSchema { json_schema: self }
    }
}

/// The mathematical content of a [`ChatResponseFormat`].
pub enum ChatResponseFormatView {
    Text,
    JsonObject,
    JsonSchema { json_schema: JsonSchemaView },
}

/// The format the model must answer in: free text, any JSON object, or a
/// named JSON schema.
#[derive(Debug)]
pub enum ChatResponseFormat {
    Text,
    JsonObject,
    JsonSchema { json_schema: JsonSchema },
}

impl View for ChatResponseFormat {
    type V = ChatResponseFormatView;

    open spec fn view(&self) -> ChatResponseFormatView {
        match self {
            ChatResponseFormat::Text => ChatResponseFormatView::Text,
            ChatResponseFormat::JsonObject => ChatResponseFormatView::JsonObject,
            ChatResponseFormat::JsonSchema { json_schema } => ChatResponseFormatView::JsonSchema {
                json_schema: json_schema@,
            },
        }
    }
}

impl Clone for ChatResponseFormat {
    fn clone(&self) -> (r: Self)
        ensures
            r@ == self@,
    {
        match self {
            ChatResponseFormat::Text => ChatResponseFormat::Text,
            ChatResponseFormat::JsonObject => ChatResponseFormat::JsonObject,
            ChatResponseFormat::JsonSchema { json_schema } => ChatResponseFormat::JsonSchema {
                json_schema: json_schema.clone(),
            },
        }
    }
}

} // verus!
