//! Providers: bindings of endpoint paths, configuration and request types
//! to one backend family.
use vstd::prelude::*;

use crate::completions::request::{completion_rep, CompletionRequest};
use crate::error::Error;
use crate::http::HttpRequestParts;
use crate::providers::config::{headers_err_text, headers_spec, headers_wf, ConfigView};
use crate::request::Requestable;
use crate::wire::min_text_of;

pub mod config;
pub mod openai;
pub mod raw;

pub use config::{Config, OpenAIConfig};
pub use openai::OpenAIProvider;
pub use raw::RawProvider;

verus! {

/// The parts a provider owes for any call it plans: the URL is the
/// configured base plus the given path, headers and query come from the
/// configuration, and the body is the request's serialization.
pub open spec fn planned(
    c: ConfigView,
    path: Seq<char>,
    body: Seq<char>,
    r: Result<HttpRequestParts, Error>,
) -> bool {
    r matches Ok(p) ==> {
        &&& p@.url == c.base_url + path
        &&& p@.headers == headers_spec(c)
        &&& p@.query == c.query
        &&& p@.body == body
    }
}

/// When planning succeeds, and what each failure reports: success
/// exactly where the request can take its wire form and every
/// configured header value is acceptable; an `InvalidArgument` with the
/// request's own message where it cannot; an `InvalidConfig` with the
/// first bad header value's message otherwise.
pub open spec fn plan_outcome<R: Requestable>(
    c: ConfigView,
    request: R,
    r: Result<HttpRequestParts, Error>,
) -> bool {
    &&& (r is Ok <==> (request.wire_ok() && headers_wf(c)))
    &&& (!request.wire_ok() ==> (r matches Err(e) && e matches Error::InvalidArgument(m) && m@
        == request.wire_err_text()))
    &&& ((request.wire_ok() && !headers_wf(c)) ==> (r matches Err(e)
        && e matches Error::InvalidConfig(m) && m@ == headers_err_text(c)))
}

/// One backend family: a configuration, concrete request types, and the
/// planning of each endpoint's call.  The transport work itself — the
/// POST, or the event source — is the hosting application's; a provider
/// only ever yields the parts of the call.
pub trait Provider: Sized {
    type Config: Config;

    type ChatRequest: Requestable;

    /// The mathematical content of the provider's configuration.
    spec fn provider_cfg(&self) -> ConfigView;

    /// The provider's configuration.
    fn config(&self) -> (r: &Self::Config)
        ensures
            r.cfg() == self.provider_cfg(),
    ;

    /// Plans the single-response chat call: a POST against the chat
    /// completions path carrying the serialized request.
    fn chat(&self, request: Self::ChatRequest) -> (r: Result<HttpRequestParts, Error>)
        ensures
            planned(
                self.provider_cfg(),
                "/chat/completions"@,
                request.wire_text(),
                r,
            ),
            plan_outcome(self.provider_cfg(), request, r),
    ;

    /// Plans the streaming chat call: the same POST, to be opened as an
    /// event source.
    fn chat_stream(&self, request: Self::ChatRequest) -> (r: Result<HttpRequestParts, Error>)
        ensures
            planned(
                self.provider_cfg(),
                "/chat/completions"@,
                request.wire_text(),
                r,
            ),
            plan_outcome(self.provider_cfg(), request, r),
    ;

    /// Plans the plain completions call, which always has a wire form:
    /// it succeeds exactly where every configured header value is
    /// acceptable.
    fn completions(&self, request: CompletionRequest) -> (r: Result<HttpRequestParts, Error>)
        ensures
            planned(
                self.provider_cfg(),
                "/completions"@,
                min_text_of(completion_rep(request@)),
                r,
            ),
            r is Ok <==> headers_wf(self.provider_cfg()),
            r matches Err(e) ==> (e matches Error::InvalidConfig(m) && m@ == headers_err_text(
                self.provider_cfg(),
            )),
    ;
}

} // verus!
