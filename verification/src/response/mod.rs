//! Responses: what a call yields, and the trait every response type
//! obeys.
use vstd::prelude::*;

pub mod chat;

pub use chat::{ChatResponse, ChatResponseStream};

verus! {

/// What every response type tells its consumer: whether the value
/// reports success.  An application-level error payload never becomes a
/// failed response — it is surfaced as a transport error instead — so
/// every response that exists reports success.
pub trait Respondable: Sized {
    /// Whether the response reports success.
    fn is_success(&self) -> (r: bool)
        ensures
            r,
    ;
}

impl Respondable for serde_json::Value {
    fn is_success(&self) -> (r: bool) {
        true
    }
}

} // verus!
