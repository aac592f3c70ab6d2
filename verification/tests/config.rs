//! Configuration: URL sanitizing, header building, and the sentinel.
use async_llm::providers::config::sanitize_base_url;
use async_llm::{Config, Error, OpenAIConfig};

#[test]
fn sanitize_strips_trailing_slashes_and_spaces() {
    assert_eq!(sanitize_base_url("https://a/v1"), "https://a/v1".to_string());
    assert_eq!(sanitize_base_url("https://a/v1/"), "https://a/v1".to_string());
    assert_eq!(sanitize_base_url("https://a/v1/  / "), "https://a/v1".to_string());
    assert_eq!(sanitize_base_url(""), "".to_string());
    assert_eq!(sanitize_base_url("///"), "".to_string());
}

#[test]
fn url_appends_the_path() {
    let config = OpenAIConfig::new("https://api.example/v1/", None);
    assert_eq!(
        config.url("/chat/completions"),
        "https://api.example/v1/chat/completions".to_string()
    );
}

#[test]
fn headers_hold_content_type_bearer_and_beta() {
    let config = OpenAIConfig::new("https://api.example/v1", Some("sk-42".to_string()));
    let headers = config.headers().unwrap();
    assert_eq!(
        headers,
        vec![
            ("content-type".to_string(), "application/json".to_string()),
            ("authorization".to_string(), "Bearer sk-42".to_string()),
            ("OpenAI-Beta".to_string(), "assistants=v2".to_string()),
        ]
    );
}

#[test]
fn headers_include_organization_and_project() {
    let mut config = OpenAIConfig::new("https://api.example/v1", None);
    config.org_id = Some("org-1".to_string());
    config.project_id = Some("proj-2".to_string());
    config.beta = None;
    let headers = config.headers().unwrap();
    assert_eq!(
        headers,
        vec![
            ("content-type".to_string(), "application/json".to_string()),
            ("OpenAI-Organization".to_string(), "org-1".to_string()),
            ("OpenAI-Project".to_string(), "proj-2".to_string()),
        ]
    );
}

#[test]
fn a_control_character_in_the_key_is_rejected() {
    let config = OpenAIConfig::new("https://api.example/v1", Some("bad\nkey".to_string()));
    match config.headers() {
        Err(Error::InvalidConfig(msg)) => {
            assert_eq!(msg, "Failed to convert api key to header value.".to_string());
        }
        other => panic!("expected InvalidConfig, got {other:?}"),
    }
}

#[test]
fn a_control_character_in_the_organization_is_rejected() {
    let mut config = OpenAIConfig::new("https://api.example/v1", None);
    config.org_id = Some("org\u{7f}".to_string());
    match config.headers() {
        Err(Error::InvalidConfig(msg)) => {
            assert_eq!(msg, "Failed to convert organization id to header value.".to_string());
        }
        other => panic!("expected InvalidConfig, got {other:?}"),
    }
}

#[test]
fn non_ascii_text_is_acceptable_in_headers() {
    let mut config = OpenAIConfig::new("https://api.example/v1", None);
    config.org_id = Some("orgé".to_string());
    assert!(config.headers().is_ok());
}

#[test]
fn the_default_sentinel_is_done() {
    let config = OpenAIConfig::new("https://api.example/v1", None);
    assert_eq!(config.stream_done_message(), "[DONE]");
}

#[test]
fn the_default_config_points_at_openai() {
    let config = OpenAIConfig::default();
    assert_eq!(config.base_url(), "https://api.openai.com/v1");
    assert!(config.api_key().is_none());
}
