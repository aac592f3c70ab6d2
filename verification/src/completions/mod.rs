//! The plain completions endpoint: request, response, and its facade.
use vstd::prelude::*;

use crate::client::Client;
use crate::error::Error;
use crate::http::HttpRequestParts;
use crate::providers::config::{headers_err_text, headers_wf};
use crate::providers::{planned, Provider};
use crate::wire::min_text_of;

pub mod request;
pub mod response;

pub use request::{completion_rep, CompletionRequest};
pub use response::CompletionResponse;

verus! {

/// The completions facade: the historical create-only endpoint, with no
/// streaming variant.
pub struct Completions<'c, P: Provider> {
    pub client: &'c Client<P>,
}

impl<'c, P: Provider> Completions<'c, P> {
    /// The facade over a client.
    pub fn new(client: &'c Client<P>) -> (r: Self)
        ensures
            r.client == client,
    {
        Completions { client }
    }

    /// Plans the completion call through the client's provider: it
    /// succeeds exactly where the configuration's header values are
    /// acceptable.
    pub fn create(&self, request: CompletionRequest) -> (r: Result<HttpRequestParts, Error>)
        ensures
            planned(
                self.client.provider.provider_cfg(),
                "/completions"@,
                min_text_of(completion_rep(request@)),
                r,
            ),
            r is Ok <==> headers_wf(self.client.provider.provider_cfg()),
            r matches Err(e) ==> (e matches Error::InvalidConfig(m) && m@ == headers_err_text(
                self.client.provider.provider_cfg(),
            )),
    {
        self.client.provider.completions(request)
    }
}

} // verus!
