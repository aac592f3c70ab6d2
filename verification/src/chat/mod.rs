//! The chat endpoint: wire-ready request shapes, their serialization,
//! and the endpoint facade that enforces stream-mode correctness.
use vstd::prelude::*;

use crate::client::Client;
use crate::error::Error;
use crate::http::HttpRequestParts;
use crate::providers::{plan_outcome, planned, Provider};
use crate::request::Requestable;

pub mod codec;
pub mod request;
pub mod response;

pub use request::{
    ChatCompletionRequest, ChatCompletionRequestBuilder, ChatCompletionRequestMessage,
};
pub use response::ChatCompletionResponse;

verus! {

/// The message rejecting a streaming request on the single-response
/// entry point.
pub open spec fn stream_on_create_text() -> Seq<char> {
    "When stream is true, use the client.create_stream function instead"@
}

/// The message rejecting a single-response request on the streaming
/// entry point.
pub open spec fn no_stream_on_create_stream_text() -> Seq<char> {
    "When stream is false, use the client.create function instead"@
}

/// The chat facade: the two entry points, each refusing the other's
/// stream mode before anything else happens.
pub struct Chat<'c, P: Provider> {
    pub client: &'c Client<P>,
}

impl<'c, P: Provider> Chat<'c, P> {
    /// The facade over a client.
    pub fn new(client: &'c Client<P>) -> (r: Self)
        ensures
            r.client == client,
    {
        Chat { client }
    }

    /// Plans the single-response chat call.  A request whose stream flag
    /// is set is refused with `InvalidArgument` before any call is
    /// planned; no transport work can arise from it.  Otherwise the call
    /// succeeds exactly where the request can take its wire form and the
    /// configuration's header values are acceptable, failing with the
    /// request's own `InvalidArgument` or the configuration's
    /// `InvalidConfig` respectively.
    pub fn create(&self, request: P::ChatRequest) -> (r: Result<HttpRequestParts, Error>)
        ensures
            request.stream_flag() ==> (r matches Err(e) && e matches Error::InvalidArgument(m)
                && m@ == stream_on_create_text()),
            !request.stream_flag() ==> planned(
                self.client.provider.provider_cfg(),
                "/chat/completions"@,
                request.wire_text(),
                r,
            ),
            !request.stream_flag() ==> plan_outcome(
                self.client.provider.provider_cfg(),
                request,
                r,
            ),
    {
        if request.stream() {
            Err(
                Error::InvalidArgument(
                    String::from_str(
                        "When stream is true, use the client.create_stream function instead",
                    ),
                ),
            )
        } else {
            self.client.provider.chat(request)
        }
    }

    /// Plans the streaming chat call.  A request whose stream flag is
    /// not set is refused with `InvalidArgument` before any call is
    /// planned.  Otherwise success and the error kinds follow the same
    /// rule as for the single-response entry.
    pub fn create_stream(&self, request: P::ChatRequest) -> (r: Result<HttpRequestParts, Error>)
        ensures
            !request.stream_flag() ==> (r matches Err(e) && e matches Error::InvalidArgument(m)
                && m@ == no_stream_on_create_stream_text()),
            request.stream_flag() ==> planned(
                self.client.provider.provider_cfg(),
                "/chat/completions"@,
                request.wire_text(),
                r,
            ),
            request.stream_flag() ==> plan_outcome(
                self.client.provider.provider_cfg(),
                request,
                r,
            ),
    {
        if !request.stream() {
            Err(
                Error::InvalidArgument(
                    String::from_str(
                        "When stream is false, use the client.create function instead",
                    ),
                ),
            )
        } else {
            self.client.provider.chat_stream(request)
        }
    }
}

} // verus!
