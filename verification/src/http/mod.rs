//! The transport: building the parts of an HTTP POST, and reading its
//! response.
//!
//! The crate does not open connections itself; it builds every part of a
//! call (URL, headers, query, body) and decides what a response means.
//! The hosting application performs the POST and hands back status and
//! body.
use vstd::prelude::*;

use crate::error::Error;
use crate::json::{
    json_err_text, json_field_debug, json_field_debug_text, json_has_field, json_of, json_wf,
    parse_json,
};
use crate::providers::config::{headers_err_text, headers_spec, headers_wf, Config, ConfigView};
use crate::wire::{dec_text, u64_to_dec};

pub mod stream;

verus! {

/// The mathematical content of an [`HttpRequestParts`].
pub struct HttpRequestPartsView {
    pub url: Seq<char>,
    pub headers: Seq<(Seq<char>, Seq<char>)>,
    pub query: Seq<(Seq<char>, Seq<char>)>,
    pub body: Seq<char>,
}

/// Everything a single POST needs: the full URL, the headers, the query
/// parameters, and the serialized body.
#[derive(Debug)]
pub struct HttpRequestParts {
    pub url: String,
    pub headers: Vec<(String, String)>,
    pub query: Vec<(String, String)>,
    pub body: String,
}

impl View for HttpRequestParts {
    type V = HttpRequestPartsView;

    open spec fn view(&self) -> HttpRequestPartsView {
        HttpRequestPartsView {
            url: self.url@,
            headers: self.headers.deep_view(),
            query: self.query.deep_view(),
            body: self.body@,
        }
    }
}

/// The parts a configuration yields for a POST against `path` with
/// `body`.
pub open spec fn parts_spec(c: ConfigView, path: Seq<char>, body: Seq<char>) -> HttpRequestPartsView {
    HttpRequestPartsView {
        url: c.base_url + path,
        headers: headers_spec(c),
        query: c.query,
        body: body,
    }
}

/// Builds the parts of a POST: URL from the base URL and path, headers
/// and query from the configuration, the body as given.  Fails exactly
/// where a configured header value is unacceptable.
pub fn prepare_parts<C: Config>(config: &C, path: &str, body: String) -> (r: Result<
    HttpRequestParts,
    Error,
>)
    ensures
        r is Ok <==> headers_wf(config.cfg()),
        r matches Ok(p) ==> p@ == parts_spec(config.cfg(), path@, body@),
        r matches Err(e) ==> (e matches Error::InvalidConfig(m) && m@ == headers_err_text(
            config.cfg(),
        )),
{
    let headers = match config.headers() {
        Ok(hs) => hs,
        Err(e) => {
            return Err(e);
        },
    };
    let url = config.url(path);
    let query = config.query();
    Ok(HttpRequestParts { url, headers, query, body })
}

/// Whether an HTTP status code reports success.
pub open spec fn status_success_spec(status: u16) -> bool {
    200 <= status < 300
}

/// Reads whether an HTTP status code reports success.
pub fn status_success(status: u16) -> (r: bool)
    ensures
        r == status_success_spec(status),
{
    200 <= status && status < 300
}

/// The message reported where a success response's body is not JSON.
pub open spec fn read_json_err_text(url: Seq<char>, body: Seq<char>) -> Seq<char> {
    "Failed to read JSON from HTTP request. Error = "@ + json_err_text(body) + ", url = "@ + url
}

/// The message reported where a success response carries an application
/// error member.
pub open spec fn api_err_text(url: Seq<char>, body: Seq<char>) -> Seq<char> {
    "Failed to process HTTP request. Error = "@ + json_field_debug_text(json_of(body), "error"@)
        + ", url = "@ + url
}

/// The message reported where a success response's shape is recognized
/// neither as a success nor as an application error.
pub open spec fn unrecognized_err_text(url: Seq<char>) -> Seq<char> {
    "Failed to process HTTP request. url = "@ + url
}

/// The message reported for a non-success status, body preserved
/// verbatim.
pub open spec fn status_err_text(url: Seq<char>, status: u16, body: Seq<char>) -> Seq<char> {
    "Failed to process HTTP request. Status Code = "@ + dec_text(status as nat) + ", url = "@ + url
        + " - body = "@ + body
}

/// What a completed POST means, for a chat-shaped endpoint.
///
/// A success status with a JSON body holding a `choices` member yields
/// the parsed document.  A success status whose body is not JSON, or is
/// JSON with an `error` member (an application error may arrive with a
/// success status), or is JSON with neither member, is an `HttpClient`
/// error, as is every non-success status; each carries the URL, and the
/// body or member at fault.
pub fn interpret_response(url: &str, status: u16, body: &str) -> (r: Result<
    serde_json::Value,
    Error,
>)
    ensures
        r is Ok <==> (status_success_spec(status) && json_wf(body@) && json_has_field(
            json_of(body@),
            "choices"@,
        )),
        r matches Ok(v) ==> v == json_of(body@),
        r matches Err(e) ==> e matches Error::HttpClient(m) && m@ == interpret_err_text(
            url@,
            status,
            body@,
        ),
{
    if !status_success(status) {
        let msg = String::from_str("Failed to process HTTP request. Status Code = ").concat(
            u64_to_dec(status as u64).as_str(),
        ).concat(", url = ").concat(url).concat(" - body = ").concat(body);
        return Err(Error::HttpClient(msg));
    }
    let value = match parse_json(body) {
        Ok(v) => v,
        Err(cause) => {
            let msg = String::from_str("Failed to read JSON from HTTP request. Error = ").concat(
                cause.as_str(),
            ).concat(", url = ").concat(url);
            return Err(Error::HttpClient(msg));
        },
    };
    if let Some(_) = json_field_debug(&value, "choices") {
        return Ok(value);
    }
    if let Some(error_text) = json_field_debug(&value, "error") {
        let msg = String::from_str("Failed to process HTTP request. Error = ").concat(
            error_text.as_str(),
        ).concat(", url = ").concat(url);
        return Err(Error::HttpClient(msg));
    }
    let msg = String::from_str("Failed to process HTTP request. url = ").concat(url);
    Err(Error::HttpClient(msg))
}

/// The message [`interpret_response`] reports, by case.
pub open spec fn interpret_err_text(url: Seq<char>, status: u16, body: Seq<char>) -> Seq<char> {
    if !status_success_spec(status) {
        status_err_text(url, status, body)
    } else if !json_wf(body) {
        read_json_err_text(url, body)
    } else if json_has_field(json_of(body), "error"@) {
        api_err_text(url, body)
    } else {
        unrecognized_err_text(url)
    }
}

/// The transport bound to one configuration.  It builds each call's
/// parts afresh from the configuration's current values; the engine that
/// carries them sits with the hosting application.
#[derive(Debug, Clone)]
pub struct SimpleHttpClient<C: Config> {
    pub config: C,
}

impl<C: Config> SimpleHttpClient<C> {
    /// A transport over the given configuration.
    pub fn new(config: C) -> (r: Self)
        ensures
            r.config == config,
    {
        SimpleHttpClient { config }
    }

    /// The parts of a POST against `path` with `body`.
    pub fn post_parts(&self, path: &str, body: String) -> (r: Result<HttpRequestParts, Error>)
        ensures
            r is Ok <==> headers_wf(self.config.cfg()),
            r matches Ok(p) ==> p@ == parts_spec(self.config.cfg(), path@, body@),
            r matches Err(e) ==> (e matches Error::InvalidConfig(m) && m@ == headers_err_text(
                self.config.cfg(),
            )),
    {
        prepare_parts(&self.config, path, body)
    }
}

} // verus!
