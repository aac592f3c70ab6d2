//! The wire serialization: exact text, escaping, and the message round
//! trip.
use async_llm::chat::codec::{message_from_json, message_to_json, request_from_json, request_to_json};
use async_llm::chat::request::ChatCompletionRequestMessage;
use async_llm::request::message::MessageContent;
use async_llm::types::{AssistantContent, ImageUrl, UserContent, UserContentPart};
use async_llm::wire::{json_min_text, u64_to_dec, Json};
use async_llm::{ChatMessage, ChatRequest, Error, Printable};

fn wire_text_of(m: &ChatMessage) -> String {
    let w = m.to_request_message().unwrap();
    let j = message_to_json(&w);
    json_min_text(&j)
}

#[test]
fn system_message_text_is_exact() {
    assert_eq!(
        wire_text_of(&ChatMessage::system("hi")),
        "{\"role\":\"system\",\"content\":\"hi\"}".to_string()
    );
}

#[test]
fn developer_and_assistant_and_tool_texts_are_exact() {
    assert_eq!(
        wire_text_of(&ChatMessage::developer("d")),
        "{\"role\":\"developer\",\"content\":\"d\"}".to_string()
    );
    assert_eq!(
        wire_text_of(&ChatMessage::assistant("a")),
        "{\"role\":\"assistant\",\"content\":\"a\"}".to_string()
    );
    assert_eq!(
        wire_text_of(&ChatMessage::tool("out", "call-7")),
        "{\"role\":\"tool\",\"content\":\"out\",\"tool_call_id\":\"call-7\"}".to_string()
    );
}

#[test]
fn user_image_message_text_is_exact() {
    let m = ChatMessage::user_image_with_text("look", ImageUrl::new("https://img.example/cat.png"));
    let expected = "{\"role\":\"user\",\"content\":[{\"type\":\"text\",\"text\":\"look\"},{\"type\":\"image_url\",\"image_url\":{\"url\":\"https://img.example/cat.png\"}}]}";
    assert_eq!(wire_text_of(&m), expected.to_string());
}

#[test]
fn string_escaping_matches_json() {
    let m = ChatMessage::user("a\"b\\c\nd\te\u{1}f");
    let text = wire_text_of(&m);
    assert_eq!(
        text,
        "{\"role\":\"user\",\"content\":\"a\\\"b\\\\c\\nd\\te\\u0001f\"}".to_string()
    );
    // The emitted text must be JSON that parses back to the same content.
    let value: serde_json::Value = serde_json::from_str(&text).unwrap();
    assert_eq!(
        value.get("content").and_then(|c| c.as_str()),
        Some("a\"b\\c\nd\te\u{1}f")
    );
}

#[test]
fn decimal_rendering_is_exact() {
    assert_eq!(u64_to_dec(0), "0".to_string());
    assert_eq!(u64_to_dec(7), "7".to_string());
    assert_eq!(u64_to_dec(12345), "12345".to_string());
    assert_eq!(u64_to_dec(u64::MAX), "18446744073709551615".to_string());
    assert_eq!(json_min_text(&Json::UInt(42)), "42".to_string());
}

#[test]
fn message_round_trip_all_roles() {
    let messages = vec![
        ChatMessage::system("You are a helpful assistant"),
        ChatMessage::developer("dev note"),
        ChatMessage::user("plain user text"),
        ChatMessage::user_image(ImageUrl::new("https://img.example/a.png")),
        ChatMessage::user_parts(vec![
            UserContentPart::text("part one"),
            UserContentPart::image(ImageUrl::new("https://img.example/b.png")),
        ]),
        ChatMessage::assistant("the answer"),
        ChatMessage::tool("tool output", "call-1"),
    ];
    for m in &messages {
        let wire = m.to_request_message().unwrap();
        let doc = message_to_json(&wire);
        let back = message_from_json(&doc).unwrap();
        assert_eq!(back, m.to_request_message().unwrap());
    }
}

#[test]
fn message_round_trip_array_content() {
    let wire = ChatCompletionRequestMessage::System {
        content: MessageContent::Array(vec!["one".to_string(), "two".to_string()]),
    };
    let doc = message_to_json(&wire);
    let back = message_from_json(&doc).unwrap();
    assert_eq!(back, wire);
    // And the text form is the expected JSON.
    assert_eq!(
        json_min_text(&doc),
        "{\"role\":\"system\",\"content\":[\"one\",\"two\"]}".to_string()
    );
}

#[test]
fn assistant_wire_content_is_plain_text() {
    let m = ChatMessage::assistant("only text travels");
    let wire = m.to_request_message().unwrap();
    assert_eq!(
        wire,
        ChatCompletionRequestMessage::Assistant {
            content: AssistantContent::Text("only text travels".to_string())
        }
    );
}

#[test]
fn user_content_shapes_convert() {
    let m = ChatMessage::user("u");
    let wire = m.to_request_message().unwrap();
    assert_eq!(
        wire,
        ChatCompletionRequestMessage::User { content: UserContent::Text("u".to_string()) }
    );
}

#[test]
fn request_body_with_options_parses_as_json() {
    let schema: serde_json::Value =
        serde_json::from_str("{\"type\":\"object\",\"properties\":{}}").unwrap();
    let tool = async_llm::types::ChatToolFunction::new("get_weather")
        .description("Reads the weather")
        .strict(true)
        .parameters(schema)
        .into_tool();
    let request = ChatRequest::new("gpt-4o-mini", vec![ChatMessage::user("hi")])
        .tools(vec![tool])
        .response_format(async_llm::types::ChatResponseFormat::JsonObject);
    let built = request.build().unwrap();
    let doc = request_to_json(&built);
    let text = json_min_text(&doc);
    let value: serde_json::Value = serde_json::from_str(&text).unwrap();
    assert_eq!(value.get("model").and_then(|v| v.as_str()), Some("gpt-4o-mini"));
    assert_eq!(
        value.get("messages").and_then(|v| v.as_array()).map(|a| a.len()),
        Some(1)
    );
    let tools = value.get("tools").and_then(|v| v.as_array()).unwrap();
    let function = tools[0].get("function").unwrap();
    assert_eq!(function.get("name").and_then(|v| v.as_str()), Some("get_weather"));
    assert_eq!(
        function.get("parameters").and_then(|p| p.get("type")).and_then(|v| v.as_str()),
        Some("object")
    );
    assert_eq!(
        value.get("response_format").and_then(|f| f.get("type")).and_then(|v| v.as_str()),
        Some("json_object")
    );
}

#[test]
fn pretty_printing_an_untyped_document_round_trips() {
    let value: serde_json::Value =
        serde_json::from_str("{\"a\":[1,2],\"b\":{\"c\":true}}").unwrap();
    let pretty = value.to_string_pretty().unwrap();
    assert!(pretty.contains('\n'));
    let back: serde_json::Value = serde_json::from_str(&pretty).unwrap();
    assert_eq!(back, value);
}

#[test]
fn a_request_prints_its_canonical_body() {
    let request = ChatRequest::new("m", vec![ChatMessage::user("hi")]);
    let text = request.to_string_pretty().unwrap();
    assert_eq!(
        text,
        "{\"model\":\"m\",\"messages\":[{\"role\":\"user\",\"content\":\"hi\"}]}".to_string()
    );
}

#[test]
fn request_round_trip_with_stream_flag() {
    let request = ChatRequest::new(
        "gpt-4o-mini",
        vec![ChatMessage::system("sys"), ChatMessage::user("usr")],
    )
    .stream();
    let built = request.build().unwrap();
    let doc = request_to_json(&built);
    let back = request_from_json(&doc).unwrap();
    assert_eq!(back.model, built.model);
    assert_eq!(back.messages, built.messages);
    assert_eq!(back.stream, built.stream);
    assert!(back.tools.is_none());
    assert!(back.response_format.is_none());
}

#[test]
fn unrecognized_message_shapes_are_rejected() {
    let not_a_message = Json::Str("just text".to_string());
    match message_from_json(&not_a_message) {
        Err(Error::Json(msg)) => {
            assert_eq!(msg, "unrecognized chat message shape".to_string());
        }
        other => panic!("expected a Json error, got {other:?}"),
    }
    let not_a_request = Json::Bool(true);
    match request_from_json(&not_a_request) {
        Err(Error::Json(msg)) => {
            assert_eq!(msg, "unrecognized chat request shape".to_string());
        }
        other => panic!("expected a Json error, got {other:?}"),
    }
}
