//! Reading completed POST responses.
use async_llm::http::{interpret_response, status_success};
use async_llm::Error;

#[test]
fn success_with_choices_yields_the_document() {
    let body = "{\"choices\":[],\"id\":\"x\"}";
    let value = interpret_response("https://api.example/v1/chat/completions", 200, body).unwrap();
    assert_eq!(value.get("id").and_then(|v| v.as_str()), Some("x"));
    assert!(value.get("choices").unwrap().as_array().unwrap().is_empty());
}

#[test]
fn unauthorized_status_reports_code_and_body() {
    let body = "{\"error\":{\"message\":\"bad key\"}}";
    let r = interpret_response("https://api.example/v1/chat/completions", 401, body);
    match r {
        Err(Error::HttpClient(msg)) => {
            assert!(msg.contains("401"));
            assert!(msg.contains(body));
            assert!(msg.contains("https://api.example/v1/chat/completions"));
        }
        other => panic!("expected HttpClient, got {other:?}"),
    }
}

#[test]
fn application_error_with_success_status_is_a_transport_error() {
    let body = "{\"error\":{\"message\":\"quota\"}}";
    let r = interpret_response("https://u", 200, body);
    match r {
        Err(Error::HttpClient(msg)) => {
            assert!(msg.contains("Failed to process HTTP request. Error = "));
            assert!(msg.contains("quota"));
        }
        other => panic!("expected HttpClient, got {other:?}"),
    }
}

#[test]
fn unrecognized_success_body_is_a_transport_error() {
    let r = interpret_response("https://u", 200, "{\"id\":\"x\"}");
    match r {
        Err(Error::HttpClient(msg)) => {
            assert_eq!(msg, "Failed to process HTTP request. url = https://u".to_string());
        }
        other => panic!("expected HttpClient, got {other:?}"),
    }
}

#[test]
fn non_json_success_body_is_a_transport_error() {
    let r = interpret_response("https://u", 200, "not json at all");
    match r {
        Err(Error::HttpClient(msg)) => {
            assert!(msg.starts_with("Failed to read JSON from HTTP request. Error = "));
            assert!(msg.ends_with(", url = https://u"));
        }
        other => panic!("expected HttpClient, got {other:?}"),
    }
}

#[test]
fn status_range_boundaries() {
    assert!(!status_success(199));
    assert!(status_success(200));
    assert!(status_success(299));
    assert!(!status_success(300));
    assert!(!status_success(404));
    assert!(!status_success(500));
}

#[test]
fn error_messages_render_with_their_prefixes() {
    assert_eq!(
        Error::HttpClient("boom".to_string()).message(),
        "http client error: boom".to_string()
    );
    assert_eq!(Error::MissingApiKey.message(), "missing api key error".to_string());
    assert_eq!(
        Error::InvalidArgument("why".to_string()).message(),
        "invalid argument: why".to_string()
    );
    assert_eq!(
        Error::InvalidConfig("bad".to_string()).message(),
        "invalid config: bad".to_string()
    );
    assert_eq!(Error::Stream("gone".to_string()).message(), "stream error: gone".to_string());
    assert_eq!(Error::Json("shape".to_string()).message(), "json error: shape".to_string());
}
