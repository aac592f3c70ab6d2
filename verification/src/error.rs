//! The error type shared by every fallible operation of the crate.
use vstd::prelude::*;

verus! {

/// Everything that can go wrong while building or executing a call.
///
/// Each variant carries a human-readable message; [`Error::message`]
/// renders the variant together with its context.
#[derive(Debug, PartialEq, Eq)]
pub enum Error {
    /// Caller misuse: wrong stream-mode entry point, or a request that
    /// could not be converted into the provider's request type.
    InvalidArgument(String),
    /// A credential was required but absent.
    MissingApiKey,
    /// A configuration value could not be used, e.g. a header value
    /// holding a control character.
    InvalidConfig(String),
    /// Network failure, a non-success status, or a response body whose
    /// shape was not recognized; the message carries URL, status and
    /// body so the failure can be diagnosed without retrying.
    HttpClient(String),
    /// A failure of a live event source itself, as opposed to a single
    /// event's payload.
    Stream(String),
    /// A JSON payload (a whole response, or one stream item) could not
    /// be decoded.
    Json(String),
}

/// What [`Error::message`] returns for each variant.
pub open spec fn error_message_spec(e: Error) -> Seq<char> {
    match e {
        Error::InvalidArgument(m) => "invalid argument: "@ + m@,
        Error::MissingApiKey => "missing api key error"@,
        Error::InvalidConfig(m) => "invalid config: "@ + m@,
        Error::HttpClient(m) => "http client error: "@ + m@,
        Error::Stream(m) => "stream error: "@ + m@,
        Error::Json(m) => "json error: "@ + m@,
    }
}

impl Error {
    /// A human-readable rendering of the error, prefix plus context.
    pub fn message(&self) -> (r: String)
        ensures
            r@ == error_message_spec(*self),
    {
        match self {
            Error::InvalidArgument(m) => String::from_str("invalid argument: ").concat(m.as_str()),
            Error::MissingApiKey => String::from_str("missing api key error"),
            Error::InvalidConfig(m) => String::from_str("invalid config: ").concat(m.as_str()),
            Error::HttpClient(m) => String::from_str("http client error: ").concat(m.as_str()),
            Error::Stream(m) => String::from_str("stream error: ").concat(m.as_str()),
            Error::Json(m) => String::from_str("json error: ").concat(m.as_str()),
        }
    }
}

} // verus!
