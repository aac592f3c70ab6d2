//! Configuration of a provider: base URL, credential, identifier headers,
//! and the sentinel that ends a stream.
//!
//! Headers are rebuilt from the current field values on every call; there
//! is no shared header cache.
use vstd::prelude::*;

use crate::error::Error;

verus! {

/// The mathematical content of a configuration: every field a plain
/// sequence of characters.
pub struct ConfigView {
    pub base_url: Seq<char>,
    pub api_key: Option<Seq<char>>,
    pub org_id: Option<Seq<char>>,
    pub project_id: Option<Seq<char>>,
    pub beta: Option<Seq<char>>,
    pub query: Seq<(Seq<char>, Seq<char>)>,
    pub done: Seq<char>,
}

/// Whether a character may appear in an HTTP header value: horizontal tab
/// or anything at or above space, except delete.  (Over UTF-8 this is
/// exactly the byte-level rule the HTTP stack applies: every byte of a
/// multi-byte character is at or above 128.)
pub open spec fn valid_header_char(c: char) -> bool {
    c == '\t' || (c as u32 >= 32 && c as u32 != 127)
}

/// Whether a whole value may stand in an HTTP header.
pub open spec fn valid_header_text(s: Seq<char>) -> bool {
    forall|i: int| 0 <= i < s.len() ==> valid_header_char(#[trigger] s[i])
}

/// The authorization value built from a key.
pub open spec fn bearer_of(key: Seq<char>) -> Seq<char> {
    "Bearer "@ + key
}

/// Whether every header value this configuration asks for is acceptable.
pub open spec fn headers_wf(c: ConfigView) -> bool {
    &&& (c.api_key matches Some(k) ==> valid_header_text(bearer_of(k)))
    &&& (c.org_id matches Some(v) ==> valid_header_text(v))
    &&& (c.project_id matches Some(v) ==> valid_header_text(v))
    &&& (c.beta matches Some(v) ==> valid_header_text(v))
}

/// The header list a configuration yields, in order: content type, then
/// authorization, organization, project and beta, each present exactly
/// where the configuration holds the corresponding value.
pub open spec fn headers_spec(c: ConfigView) -> Seq<(Seq<char>, Seq<char>)> {
    seq![("content-type"@, "application/json"@)] + (match c.api_key {
        Some(k) => seq![("authorization"@, bearer_of(k))],
        None => Seq::empty(),
    }) + (match c.org_id {
        Some(v) => seq![("OpenAI-Organization"@, v)],
        None => Seq::empty(),
    }) + (match c.project_id {
        Some(v) => seq![("OpenAI-Project"@, v)],
        None => Seq::empty(),
    }) + (match c.beta {
        Some(v) => seq![("OpenAI-Beta"@, v)],
        None => Seq::empty(),
    })
}

/// The message of the error reported for the first value that cannot
/// stand in a header, in the order the headers are built.
pub open spec fn headers_err_text(c: ConfigView) -> Seq<char> {
    if c.api_key matches Some(k) && !valid_header_text(bearer_of(k)) {
        "Failed to convert api key to header value."@
    } else if c.org_id matches Some(v) && !valid_header_text(v) {
        "Failed to convert organization id to header value."@
    } else if c.project_id matches Some(v) && !valid_header_text(v) {
        "Failed to convert project id to header value."@
    } else {
        "Failed to convert beta to header value."@
    }
}

/// What a configuration owes its transport: URL construction, header and
/// query construction, and the stream-termination sentinel.
pub trait Config: Sized + Clone {
    /// The configuration's mathematical content.
    spec fn cfg(&self) -> ConfigView;

    /// The headers to attach to a call, or the error for the first value
    /// that cannot stand in a header.
    fn headers(&self) -> (r: Result<Vec<(String, String)>, Error>)
        ensures
            r is Ok <==> headers_wf(self.cfg()),
            r matches Ok(hs) ==> hs.deep_view() == headers_spec(self.cfg()),
            r matches Err(e) ==> e matches Error::InvalidConfig(m) && m@ == headers_err_text(
                self.cfg(),
            ),
    ;

    /// The full URL for a path: base URL with the path appended.
    fn url(&self, path: &str) -> (r: String)
        ensures
            r@ == self.cfg().base_url + path@,
    ;

    /// The query parameters to attach to a call.
    fn query(&self) -> (r: Vec<(String, String)>)
        ensures
            r.deep_view() == self.cfg().query,
    ;

    /// The base URL itself.
    fn base_url(&self) -> (r: &str)
        ensures
            r@ == self.cfg().base_url,
    ;

    /// The credential, where one is configured.
    fn api_key(&self) -> (r: Option<&String>)
        ensures
            match r {
                Some(k) => self.cfg().api_key == Some(k@),
                None => self.cfg().api_key is None,
            },
    ;

    /// The payload that marks the normal end of an event stream.
    fn stream_done_message(&self) -> (r: &'static str)
        ensures
            r@ == self.cfg().done,
    ;
}

/// The base URL used when none is configured.
pub fn openai_base_url() -> (r: &'static str)
    ensures
        r@ == "https://api.openai.com/v1"@,
{
    "https://api.openai.com/v1"
}

/// A configuration for an OpenAI-style endpoint.
#[derive(Debug)]
pub struct OpenAIConfig {
    pub base_url: String,
    pub api_key: Option<String>,
    pub org_id: Option<String>,
    pub project_id: Option<String>,
    pub beta: Option<String>,
}

/// A base URL with trailing slashes and spaces removed.
pub open spec fn sanitized(s: Seq<char>) -> Seq<char>
    decreases s.len(),
{
    if s.len() > 0 && (s.last() == '/' || s.last() == ' ') {
        sanitized(s.drop_last())
    } else {
        s
    }
}

proof fn lemma_sanitized_step(s: Seq<char>, n: int)
    requires
        0 <= n < s.len(),
        forall|i: int| n <= i < s.len() ==> s[i] == '/' || s[i] == ' ',
    ensures
        sanitized(s) == sanitized(s.subrange(0, n)),
    decreases s.len() - n,
{
    assert(s.last() == '/' || s.last() == ' ');
    if n == s.len() - 1 {
        assert(s.drop_last() =~= s.subrange(0, n));
    } else {
        lemma_sanitized_step(s.drop_last(), n);
        assert(s.drop_last().subrange(0, n) =~= s.subrange(0, n));
    }
}

/// Strips trailing `/` and space characters from a base URL, so that a
/// path can be appended without doubling separators.
pub fn sanitize_base_url(input: &str) -> (r: String)
    ensures
        r@ == sanitized(input@),
{
    let len = input.unicode_len();
    let mut n = len;
    loop
        invariant
            n <= len,
            len == input@.len(),
            forall|i: int| n <= i < len ==> input@[i] == '/' || input@[i] == ' ',
        ensures
            n <= len,
            forall|i: int| n <= i < len ==> input@[i] == '/' || input@[i] == ' ',
            n > 0 ==> !(input@[n - 1] == '/' || input@[n - 1] == ' '),
        decreases n,
    {
        if n == 0 {
            break ;
        }
        let c = input.get_char(n - 1);
        if !(c == '/' || c == ' ') {
            break ;
        }
        n = n - 1;
    }
    proof {
        if n < len {
            lemma_sanitized_step(input@, n as int);
        } else {
            assert(input@.subrange(0, n as int) =~= input@);
        }
        assert(sanitized(input@) == sanitized(input@.subrange(0, n as int)));
        if n > 0 {
            assert(input@.subrange(0, n as int).last() == input@[n - 1]);
        }
    }
    let prefix = input.substring_char(0, n);
    prefix.to_owned()
}

/// Whether every character of the value may stand in an HTTP header.
pub fn is_valid_header_value(s: &str) -> (r: bool)
    ensures
        r == valid_header_text(s@),
{
    let len = s.unicode_len();
    let mut i: usize = 0;
    let mut ok = true;
    while i < len
        invariant
            i <= len,
            len == s@.len(),
            ok == (forall|j: int| 0 <= j < i ==> valid_header_char(#[trigger] s@[j])),
        decreases len - i,
    {
        let c = s.get_char(i);
        let v = c as u32;
        if !(c == '\t' || (v >= 32 && v != 127)) {
            ok = false;
        }
        i = i + 1;
    }
    ok
}

impl Clone for OpenAIConfig {
    fn clone(&self) -> (r: Self)
        ensures
            r.cfg() == self.cfg(),
    {
        OpenAIConfig {
            base_url: self.base_url.clone(),
            api_key: match &self.api_key {
                Some(k) => Some(k.clone()),
                None => None,
            },
            org_id: match &self.org_id {
                Some(v) => Some(v.clone()),
                None => None,
            },
            project_id: match &self.project_id {
                Some(v) => Some(v.clone()),
                None => None,
            },
            beta: match &self.beta {
                Some(v) => Some(v.clone()),
                None => None,
            },
        }
    }
}

impl OpenAIConfig {
    /// A configuration with the given base URL (sanitized) and credential;
    /// the beta header is preset, organization and project are not.
    pub fn new(base_url: &str, api_key: Option<String>) -> (r: Self)
        ensures
            r.cfg().base_url == sanitized(base_url@),
            r.cfg().api_key == (match api_key {
                Some(k) => Some::<Seq<char>>(k@),
                None => None::<Seq<char>>,
            }),
            r.cfg().org_id is None,
            r.cfg().project_id is None,
            r.cfg().beta == Some("assistants=v2"@),
    {
        OpenAIConfig {
            base_url: sanitize_base_url(base_url),
            api_key,
            org_id: None,
            project_id: None,
            beta: Some(String::from_str("assistants=v2")),
        }
    }
}

impl Default for OpenAIConfig {
    /// The stock configuration: the public OpenAI base URL, no credential,
    /// and the preset beta header.  (Reading the environment is left to
    /// the hosting application.)
    fn default() -> (r: Self)
        ensures
            r.cfg().base_url == sanitized("https://api.openai.com/v1"@),
            r.cfg().api_key is None,
            r.cfg().org_id is None,
            r.cfg().project_id is None,
            r.cfg().beta == Some("assistants=v2"@),
    {
        OpenAIConfig::new(openai_base_url(), None)
    }
}

/// Appends `(name, value)` to the header list after checking the value.
fn push_header(
    headers: &mut Vec<(String, String)>,
    name: &str,
    value: &str,
    err_msg: &str,
) -> (r: Result<(), Error>)
    ensures
        r is Ok <==> valid_header_text(value@),
        r is Ok ==> final(headers).deep_view() == old(headers).deep_view().push(
            (name@, value@),
        ),
        r is Err ==> *final(headers) == *old(headers),
        r matches Err(e) ==> e matches Error::InvalidConfig(m) && m@ == err_msg@,
{
    if is_valid_header_value(value) {
        headers.push((name.to_owned(), value.to_owned()));
        proof {
            assert(headers.deep_view() =~= old(headers).deep_view().push((name@, value@)));
        }
        Ok(())
    } else {
        Err(Error::InvalidConfig(err_msg.to_owned()))
    }
}

impl Config for OpenAIConfig {
    open spec fn cfg(&self) -> ConfigView {
        ConfigView {
            base_url: self.base_url@,
            api_key: match self.api_key {
                Some(k) => Some(k@),
                None => None,
            },
            org_id: match self.org_id {
                Some(v) => Some(v@),
                None => None,
            },
            project_id: match self.project_id {
                Some(v) => Some(v@),
                None => None,
            },
            beta: match self.beta {
                Some(v) => Some(v@),
                None => None,
            },
            query: Seq::empty(),
            done: "[DONE]"@,
        }
    }

    fn headers(&self) -> (r: Result<Vec<(String, String)>, Error>) {
        let mut headers: Vec<(String, String)> = Vec::new();
        headers.push((String::from_str("content-type"), String::from_str("application/json")));
        if let Some(key) = &self.api_key {
            let bearer = String::from_str("Bearer ").concat(key.as_str());
            if let Err(e) = push_header(
                &mut headers,
                "authorization",
                bearer.as_str(),
                "Failed to convert api key to header value.",
            ) {
                return Err(e);
            }
        }
        if let Some(org) = &self.org_id {
            if let Err(e) = push_header(
                &mut headers,
                "OpenAI-Organization",
                org.as_str(),
                "Failed to convert organization id to header value.",
            ) {
                return Err(e);
            }
        }
        if let Some(project) = &self.project_id {
            if let Err(e) = push_header(
                &mut headers,
                "OpenAI-Project",
                project.as_str(),
                "Failed to convert project id to header value.",
            ) {
                return Err(e);
            }
        }
        if let Some(beta) = &self.beta {
            if let Err(e) = push_header(
                &mut headers,
                "OpenAI-Beta",
                beta.as_str(),
                "Failed to convert beta to header value.",
            ) {
                return Err(e);
            }
        }
        proof {
            assert(headers.deep_view() =~= headers_spec(self.cfg()));
        }
        Ok(headers)
    }

    fn url(&self, path: &str) -> (r: String) {
        self.base_url.clone().concat(path)
    }

    fn query(&self) -> (r: Vec<(String, String)>) {
        let r: Vec<(String, String)> = Vec::new();
        proof {
            assert(r.deep_view() =~= Seq::<(Seq<char>, Seq<char>)>::empty());
        }
        r
    }

    fn base_url(&self) -> (r: &str) {
        self.base_url.as_str()
    }

    fn api_key(&self) -> (r: Option<&String>) {
        self.api_key.as_ref()
    }

    fn stream_done_message(&self) -> (r: &'static str) {
        "[DONE]"
    }
}

} // verus!
