//! Requests: what a call sends, and the trait every request type obeys.
use vstd::prelude::*;

use crate::json::{json_bool_field, json_bool_field_of, json_text_of};

pub mod chat;
pub mod message;

pub use chat::ChatRequest;
pub use message::{ChatMessage, MessageContent};

verus! {

/// What every request type tells the facade: whether it asks for a
/// streaming response.
pub trait Requestable: Sized {
    /// Whether the request asks for a streaming response.
    spec fn stream_flag(&self) -> bool;

    /// Whether the request can take its wire form at all.
    spec fn wire_ok(&self) -> bool;

    /// The message of the `InvalidArgument` error reported where it
    /// cannot.
    spec fn wire_err_text(&self) -> Seq<char>;

    /// The body this request serializes to (meaningful only where
    /// `wire_ok` holds).
    spec fn wire_text(&self) -> Seq<char>;

    /// Reads the stream flag.
    fn stream(&self) -> (r: bool)
        ensures
            r == self.stream_flag(),
    ;
}

/// An untyped passthrough request asks for streaming exactly where its
/// `stream` member is the JSON value `true`.
impl Requestable for serde_json::Value {
    open spec fn stream_flag(&self) -> bool {
        json_bool_field_of(*self, "stream"@) == Some(true)
    }

    open spec fn wire_ok(&self) -> bool {
        true
    }

    open spec fn wire_err_text(&self) -> Seq<char> {
        Seq::empty()
    }

    open spec fn wire_text(&self) -> Seq<char> {
        json_text_of(*self)
    }

    fn stream(&self) -> (r: bool) {
        match json_bool_field(self, "stream") {
            Some(b) => b,
            None => false,
        }
    }
}

} // verus!
