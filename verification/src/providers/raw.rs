//! The passthrough provider: untyped JSON documents end to end.
use vstd::prelude::*;

use crate::completions::request::{completion_rep, completion_to_json, CompletionRequest};
use crate::error::Error;
use crate::http::{prepare_parts, parts_spec, HttpRequestParts};
use crate::json::{json_text_of, json_to_text};
use crate::providers::config::{headers_err_text, headers_wf, Config, ConfigView, OpenAIConfig};
use crate::providers::{plan_outcome, planned, Provider};
use crate::wire::{json_min_text, min_text_of};

verus! {

/// The passthrough provider: requests, responses and stream items are
/// untyped JSON documents, for backends whose shapes deviate from the
/// reference schema, or for debugging.
#[derive(Debug, Clone)]
pub struct RawProvider {
    pub config: OpenAIConfig,
}

impl RawProvider {
    /// A provider over the given configuration.
    pub fn new(config: OpenAIConfig) -> (r: Self)
        ensures
            r.config == config,
    {
        RawProvider { config }
    }
}

impl Default for RawProvider {
    /// A provider over the stock configuration.
    fn default() -> (r: Self)
        ensures
            r.config.cfg().base_url == crate::providers::config::sanitized(
                "https://api.openai.com/v1"@,
            ),
            r.config.cfg().api_key is None,
    {
        RawProvider { config: OpenAIConfig::default() }
    }
}

impl Provider for RawProvider {
    type Config = OpenAIConfig;

    type ChatRequest = serde_json::Value;

    open spec fn provider_cfg(&self) -> ConfigView {
        self.config.cfg()
    }

    fn config(&self) -> (r: &OpenAIConfig) {
        &self.config
    }

    /// Prints the untyped request and plans the POST: it succeeds
    /// exactly where every configured header value is acceptable.
    fn chat(&self, request: serde_json::Value) -> (r: Result<HttpRequestParts, Error>)
        ensures
            r is Ok <==> headers_wf(self.config.cfg()),
            r matches Ok(p) ==> p@ == parts_spec(
                self.config.cfg(),
                "/chat/completions"@,
                json_text_of(request),
            ),
            r matches Err(e) ==> (e matches Error::InvalidConfig(m) && m@ == headers_err_text(
                self.config.cfg(),
            )),
    {
        self.plan_raw(request)
    }

    /// Identical planning: the streaming call differs only in how the
    /// hosting application opens it.
    fn chat_stream(&self, request: serde_json::Value) -> (r: Result<HttpRequestParts, Error>)
        ensures
            r is Ok <==> headers_wf(self.config.cfg()),
            r matches Ok(p) ==> p@ == parts_spec(
                self.config.cfg(),
                "/chat/completions"@,
                json_text_of(request),
            ),
            r matches Err(e) ==> (e matches Error::InvalidConfig(m) && m@ == headers_err_text(
                self.config.cfg(),
            )),
    {
        self.plan_raw(request)
    }

    /// Serializes the completion request and plans the POST: again it
    /// succeeds exactly where every configured header value is
    /// acceptable.
    fn completions(&self, request: CompletionRequest) -> (r: Result<HttpRequestParts, Error>)
        ensures
            r is Ok <==> headers_wf(self.config.cfg()),
            r matches Ok(p) ==> p@ == parts_spec(
                self.config.cfg(),
                "/completions"@,
                min_text_of(completion_rep(request@)),
            ),
            r matches Err(e) ==> (e matches Error::InvalidConfig(m) && m@ == headers_err_text(
                self.config.cfg(),
            )),
    {
        let json = completion_to_json(&request);
        let text = json_min_text(&json);
        prepare_parts(&self.config, "/completions", text)
    }
}

impl RawProvider {
    /// The one planning path both chat entries share.
    fn plan_raw(&self, request: serde_json::Value) -> (r: Result<HttpRequestParts, Error>)
        ensures
            planned(self.config.cfg(), "/chat/completions"@, json_text_of(request), r),
            plan_outcome(self.config.cfg(), request, r),
            r matches Ok(p) ==> p@ == parts_spec(
                self.config.cfg(),
                "/chat/completions"@,
                json_text_of(request),
            ),
    {
        let text = json_to_text(&request);
        prepare_parts(&self.config, "/chat/completions", text)
    }
}

} // verus!
