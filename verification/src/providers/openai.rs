//! The provider for OpenAI-style backends with fully typed requests.
use vstd::prelude::*;

use crate::chat::codec::{request_rep, request_to_json};
use crate::chat::request::ChatCompletionRequest;
use crate::completions::request::{completion_rep, completion_to_json, CompletionRequest};
use crate::error::Error;
use crate::http::{prepare_parts, parts_spec, HttpRequestParts};
use crate::providers::config::{headers_err_text, headers_wf, Config, ConfigView, OpenAIConfig};
use crate::providers::{plan_outcome, planned, Provider};
use crate::request::chat::{build_err_text, build_ok, built, ChatRequest};
use crate::request::Requestable;
use crate::wire::{json_min_text, min_text_of};

verus! {

/// The provider for OpenAI-style backends: typed chat requests, typed
/// responses, the standard endpoint paths.
#[derive(Debug, Clone)]
pub struct OpenAIProvider {
    pub config: OpenAIConfig,
}

impl OpenAIProvider {
    /// A provider over the given configuration.
    pub fn new(config: OpenAIConfig) -> (r: Self)
        ensures
            r.config == config,
    {
        OpenAIProvider { config }
    }
}

impl Default for OpenAIProvider {
    /// A provider over the stock configuration.
    fn default() -> (r: Self)
        ensures
            r.config.cfg().base_url == crate::providers::config::sanitized(
                "https://api.openai.com/v1"@,
            ),
            r.config.cfg().api_key is None,
    {
        OpenAIProvider { config: OpenAIConfig::default() }
    }
}

impl Provider for OpenAIProvider {
    type Config = OpenAIConfig;

    type ChatRequest = ChatRequest;

    open spec fn provider_cfg(&self) -> ConfigView {
        self.config.cfg()
    }

    fn config(&self) -> (r: &OpenAIConfig) {
        &self.config
    }

    /// Builds the request, serializes it, and plans the POST: it
    /// succeeds exactly where the request builds and every configured
    /// header value is acceptable.  A request that does not build is
    /// refused with its own `InvalidArgument` error first.
    fn chat(&self, request: ChatRequest) -> (r: Result<HttpRequestParts, Error>)
        ensures
            r is Ok <==> (build_ok(request@) && headers_wf(self.config.cfg())),
            !build_ok(request@) ==> (r matches Err(e) && e matches Error::InvalidArgument(m) && m@
                == build_err_text(request@)),
            (build_ok(request@) && !headers_wf(self.config.cfg())) ==> (r matches Err(e)
                && e matches Error::InvalidConfig(m) && m@ == headers_err_text(self.config.cfg())),
            r matches Ok(p) ==> p@ == parts_spec(
                self.config.cfg(),
                "/chat/completions"@,
                min_text_of(request_rep(built(request@))),
            ),
    {
        self.plan_chat(request)
    }

    /// Identical planning: the streaming call differs only in how the
    /// hosting application opens it.
    fn chat_stream(&self, request: ChatRequest) -> (r: Result<HttpRequestParts, Error>)
        ensures
            r is Ok <==> (build_ok(request@) && headers_wf(self.config.cfg())),
            !build_ok(request@) ==> (r matches Err(e) && e matches Error::InvalidArgument(m) && m@
                == build_err_text(request@)),
            (build_ok(request@) && !headers_wf(self.config.cfg())) ==> (r matches Err(e)
                && e matches Error::InvalidConfig(m) && m@ == headers_err_text(self.config.cfg())),
            r matches Ok(p) ==> p@ == parts_spec(
                self.config.cfg(),
                "/chat/completions"@,
                min_text_of(request_rep(built(request@))),
            ),
    {
        self.plan_chat(request)
    }

    /// Serializes the completion request and plans the POST: it
    /// succeeds exactly where every configured header value is
    /// acceptable.
    fn completions(&self, request: CompletionRequest) -> (r: Result<HttpRequestParts, Error>)
        ensures
            r is Ok <==> headers_wf(self.config.cfg()),
            r matches Ok(p) ==> p@ == parts_spec(
                self.config.cfg(),
                "/completions"@,
                min_text_of(completion_rep(request@)),
            ),
            r matches Err(e) ==> (e matches Error::InvalidConfig(m) && m@ == headers_err_text(
                self.config.cfg(),
            )),
    {
        let json = completion_to_json(&request);
        let text = json_min_text(&json);
        prepare_parts(&self.config, "/completions", text)
    }
}

impl OpenAIProvider {
    /// The one planning path both chat entries share.
    fn plan_chat(&self, request: ChatRequest) -> (r: Result<HttpRequestParts, Error>)
        ensures
            planned(self.config.cfg(), "/chat/completions"@, request.wire_text(), r),
            plan_outcome(self.config.cfg(), request, r),
            r matches Ok(p) ==> p@ == parts_spec(
                self.config.cfg(),
                "/chat/completions"@,
                min_text_of(request_rep(built(request@))),
            ),
    {
        let wire: ChatCompletionRequest = match request.build() {
            Ok(b) => b,
            Err(e) => {
                return Err(e);
            },
        };
        let json = request_to_json(&wire);
        let text = json_min_text(&json);
        prepare_parts(&self.config, "/chat/completions", text)
    }
}

} // verus!
