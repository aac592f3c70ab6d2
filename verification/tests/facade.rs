//! Stream-mode enforcement and call planning through the facades.
use async_llm::completions::CompletionRequest;
use async_llm::{ChatMessage, ChatRequest, Client, Error};

fn typed_client() -> Client<async_llm::OpenAIProvider> {
    Client::with_auth("https://api.example/v1", Some("sk-test".to_string()))
}

#[test]
fn create_refuses_a_streaming_request() {
    let client = typed_client();
    let request =
        ChatRequest::new("gpt-4o-mini", vec![ChatMessage::user("hello")]).stream();
    match client.chat().create(request) {
        Err(Error::InvalidArgument(msg)) => {
            assert_eq!(
                msg,
                "When stream is true, use the client.create_stream function instead".to_string()
            );
        }
        other => panic!("expected InvalidArgument, got {other:?}"),
    }
}

#[test]
fn create_stream_refuses_a_single_response_request() {
    let client = typed_client();
    let request = ChatRequest::new("gpt-4o-mini", vec![ChatMessage::user("hello")]);
    match client.chat().create_stream(request) {
        Err(Error::InvalidArgument(msg)) => {
            assert_eq!(
                msg,
                "When stream is false, use the client.create function instead".to_string()
            );
        }
        other => panic!("expected InvalidArgument, got {other:?}"),
    }
}

#[test]
fn create_plans_the_chat_post() {
    let client = typed_client();
    let request = ChatRequest::new("gpt-4o-mini", vec![ChatMessage::user("hello")]);
    let parts = client.chat().create(request).unwrap();
    assert_eq!(parts.url, "https://api.example/v1/chat/completions".to_string());
    assert!(parts.query.is_empty());
    assert!(parts.headers.contains(&(
        "content-type".to_string(),
        "application/json".to_string()
    )));
    assert!(parts
        .headers
        .contains(&("authorization".to_string(), "Bearer sk-test".to_string())));
    let body: serde_json::Value = serde_json::from_str(&parts.body).unwrap();
    assert_eq!(body.get("model").and_then(|v| v.as_str()), Some("gpt-4o-mini"));
    assert!(body.get("stream").is_none());
}

#[test]
fn create_stream_plans_the_same_post_with_the_flag() {
    let client = typed_client();
    let request =
        ChatRequest::new("gpt-4o-mini", vec![ChatMessage::user("hello")]).stream();
    let parts = client.chat().create_stream(request).unwrap();
    assert_eq!(parts.url, "https://api.example/v1/chat/completions".to_string());
    let body: serde_json::Value = serde_json::from_str(&parts.body).unwrap();
    assert_eq!(body.get("stream").and_then(|v| v.as_bool()), Some(true));
}

#[test]
fn create_reports_conversion_failures() {
    let client = typed_client();
    let request = ChatRequest::from_system("no model set");
    match client.chat().create(request) {
        Err(Error::InvalidArgument(msg)) => {
            assert_eq!(msg, "Field not initialized: model".to_string());
        }
        other => panic!("expected InvalidArgument, got {other:?}"),
    }
}

#[test]
fn raw_client_reads_the_stream_flag_from_the_document() {
    let client = Client::with_auth_raw("https://api.example/v1", None);
    let streaming: serde_json::Value =
        serde_json::from_str("{\"model\":\"m\",\"stream\":true}").unwrap();
    match client.chat().create(streaming) {
        Err(Error::InvalidArgument(_)) => {}
        other => panic!("expected InvalidArgument, got {other:?}"),
    }
    let plain: serde_json::Value = serde_json::from_str("{\"model\":\"m\"}").unwrap();
    let parts = client.chat().create(plain.clone()).unwrap();
    assert_eq!(parts.url, "https://api.example/v1/chat/completions".to_string());
    // The body is exactly what serde_json prints for the document.
    assert_eq!(parts.body, serde_json::to_string(&plain).unwrap());
    // No credential was configured, so no authorization header is attached.
    assert!(parts.headers.iter().all(|(name, _)| name != "authorization"));
}

#[test]
fn raw_client_streams_when_asked() {
    let client = Client::with_auth_raw("https://api.example/v1", None);
    let streaming: serde_json::Value =
        serde_json::from_str("{\"model\":\"m\",\"stream\":true}").unwrap();
    let parts = client.chat().create_stream(streaming).unwrap();
    let body: serde_json::Value = serde_json::from_str(&parts.body).unwrap();
    assert_eq!(body.get("stream").and_then(|v| v.as_bool()), Some(true));
}

#[test]
fn completions_creates_against_the_completions_path() {
    let client = typed_client();
    let request = CompletionRequest::new("gpt-3.5-turbo-instruct", "Say this is a test");
    let parts = client.completions().create(request).unwrap();
    assert_eq!(parts.url, "https://api.example/v1/completions".to_string());
    assert_eq!(
        parts.body,
        "{\"model\":\"gpt-3.5-turbo-instruct\",\"prompt\":\"Say this is a test\"}".to_string()
    );
}

#[test]
fn planning_fails_exactly_on_a_bad_header_value() {
    // A key holding a control character is the one thing that can stop
    // planning for a well-formed raw request.
    let client = Client::with_auth_raw("https://api.example/v1", Some("bad\nkey".to_string()));
    let plain: serde_json::Value = serde_json::from_str("{\"model\":\"m\"}").unwrap();
    match client.chat().create(plain) {
        Err(Error::InvalidConfig(msg)) => {
            assert_eq!(msg, "Failed to convert api key to header value.".to_string());
        }
        other => panic!("expected InvalidConfig, got {other:?}"),
    }
    // With an acceptable key the same call must succeed.
    let client = Client::with_auth_raw("https://api.example/v1", Some("sk-ok".to_string()));
    let plain: serde_json::Value = serde_json::from_str("{\"model\":\"m\"}").unwrap();
    assert!(client.chat().create(plain).is_ok());
}

#[test]
fn typed_planning_fails_exactly_on_a_bad_header_value() {
    let client: Client<async_llm::OpenAIProvider> =
        Client::with_auth("https://api.example/v1", Some("bad\u{7f}key".to_string()));
    let request = ChatRequest::new("m", vec![ChatMessage::user("hi")]);
    match client.chat().create(request) {
        Err(Error::InvalidConfig(msg)) => {
            assert_eq!(msg, "Failed to convert api key to header value.".to_string());
        }
        other => panic!("expected InvalidConfig, got {other:?}"),
    }
}
