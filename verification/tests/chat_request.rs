//! Building chat requests.
use async_llm::chat::request::ChatCompletionRequestMessage;
use async_llm::request::message::MessageContent;
use async_llm::{ChatMessage, ChatRequest, Error};

#[test]
fn chat_request_works() {
    let request = ChatRequest::new(
        "gpt-4o-mini",
        vec![
            ChatMessage::system("You are a helpful assistant"),
            ChatMessage::user("Who are you?"),
        ],
    )
    .user("1 + 1 =");

    let completion = request.build();
    assert!(completion.is_ok());
}

#[test]
fn build_keeps_model_and_messages() {
    let request = ChatRequest::new("m1", vec![ChatMessage::system("s")]).user("u");
    let built = request.build().unwrap();
    assert_eq!(built.model, "m1".to_string());
    assert_eq!(built.messages.len(), 2);
    assert_eq!(
        built.messages[0],
        ChatCompletionRequestMessage::System { content: MessageContent::Text("s".to_string()) }
    );
    assert!(built.stream.is_none());
}

#[test]
fn build_without_model_fails() {
    let request = ChatRequest::from_system("only a system prompt");
    match request.build() {
        Err(Error::InvalidArgument(msg)) => {
            assert_eq!(msg, "Field not initialized: model".to_string());
        }
        other => panic!("expected InvalidArgument, got {other:?}"),
    }
}

#[test]
fn build_rejects_assistant_without_content() {
    let request = ChatRequest::new(
        "m",
        vec![ChatMessage::Assistant { message_content: None, refusal: None, audio: None }],
    );
    match request.build() {
        Err(Error::InvalidArgument(msg)) => {
            assert_eq!(msg, "assistant message without content is not supported".to_string());
        }
        other => panic!("expected InvalidArgument, got {other:?}"),
    }
}

#[test]
fn build_rejects_assistant_with_array_content() {
    let request = ChatRequest::new(
        "m",
        vec![ChatMessage::Assistant {
            message_content: Some(MessageContent::Array(vec!["a".to_string(), "b".to_string()])),
            refusal: None,
            audio: None,
        }],
    );
    match request.build() {
        Err(Error::InvalidArgument(msg)) => {
            assert_eq!(msg, "assistant message with array content is not supported".to_string());
        }
        other => panic!("expected InvalidArgument, got {other:?}"),
    }
}

#[test]
fn chainable_setters_accumulate() {
    let request = ChatRequest::from_model("m")
        .system("sys")
        .user("usr")
        .developer("dev")
        .assistant("asst")
        .tool("tool answer", "call-1");
    assert_eq!(request.iter_messages().len(), 5);
    let built = request.stream().build().unwrap();
    assert_eq!(built.stream, Some(true));
    assert_eq!(built.messages.len(), 5);
    assert_eq!(
        built.messages[4],
        ChatCompletionRequestMessage::Tool {
            content: MessageContent::Text("tool answer".to_string()),
            tool_call_id: "call-1".to_string(),
        }
    );
}

#[test]
fn as_inner_mut_reaches_the_builder() {
    let mut request = ChatRequest::from_system("s");
    request.as_inner_mut().model("late-model");
    let built = request.build().unwrap();
    assert_eq!(built.model, "late-model".to_string());
}
