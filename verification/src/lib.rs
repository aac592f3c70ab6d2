//! A verified client core for OpenAI-compatible chat and completion
//! services.
//!
//! The crate plans every HTTP call — URL, headers, query, serialized
//! body — and decides what each response and each server-sent event
//! means; the hosting application performs the I/O and feeds the raw
//! results back.  Every decision, from the stream-mode check in the
//! facade to the decoding of an event session, carries a proved
//! contract.
use vstd::prelude::*;

mod error;
mod json;

pub mod chat;
pub mod client;
pub mod completions;
pub mod http;
pub mod providers;
pub mod request;
pub mod response;
pub mod types;
pub mod wire;

pub use client::Client;
pub use error::Error;
pub use providers::{Config, OpenAIConfig, OpenAIProvider, Provider, RawProvider};
pub use request::{ChatMessage, ChatRequest};
pub use response::{ChatResponse, ChatResponseStream};

verus! {

/// A value that can render itself as indented JSON text.
pub trait Printable: Sized {
    /// The value as human-readable JSON text.
    fn to_string_pretty(&self) -> Result<String, Error>;
}

/// An untyped document prints through `serde_json` itself, which cannot
/// fail on one.
impl Printable for serde_json::Value {
    fn to_string_pretty(&self) -> (r: Result<String, Error>)
        ensures
            r matches Ok(t) && t@ == crate::json::json_pretty_text_of(*self),
    {
        Ok(crate::json::json_to_text_pretty(self))
    }
}

} // verus!
