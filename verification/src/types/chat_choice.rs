//! One choice of a chat response, and the shapes inside it.
use vstd::prelude::*;

verus! {

/// The name and serialized arguments of a called function.
#[derive(Debug, Clone, PartialEq)]
pub struct ChatMessageFunctionCall {
    pub name: Option<String>,
    pub arguments: Option<String>,
}

/// One tool call generated by the model.
#[derive(Debug, Clone, PartialEq)]
pub struct ChatMessageToolCall {
    pub id: Option<String>,
    pub kind: Option<String>,
    pub function: Option<ChatMessageFunctionCall>,
}

/// An audio answer generated by the model.
#[derive(Debug, Clone, PartialEq)]
pub struct ChatMessageAudio {
    pub id: Option<String>,
    pub expires_at: Option<u32>,
    pub data: Option<String>,
    pub transcript: Option<String>,
}

/// One token of log-probability information, without the probability
/// itself.
#[derive(Debug, Clone, PartialEq)]
pub struct ChatLogprobsLogProb {
    pub token: Option<String>,
    pub bytes: Option<Vec<u8>>,
}

/// Log-probability information for one message token.
#[derive(Debug, Clone, PartialEq)]
pub struct ChatLogprobsMessage {
    pub token: Option<String>,
    pub bytes: Option<Vec<u8>>,
    pub top_logprobs: Option<Vec<ChatLogprobsLogProb>>,
}

/// Log-probability information for a choice.
#[derive(Debug, Clone, PartialEq)]
pub struct ChatLogprobs {
    pub content: Option<Vec<ChatLogprobsMessage>>,
    pub refusal: Option<Vec<ChatLogprobsMessage>>,
}

/// A complete message generated by the model.
#[derive(Debug, Clone, PartialEq)]
pub struct ChatChoiceMessage {
    pub content: Option<String>,
    pub refusal: Option<String>,
    pub tool_calls: Option<Vec<ChatMessageToolCall>>,
    pub role: Option<String>,
    pub function_call: Option<ChatMessageFunctionCall>,
    pub audio: Option<ChatMessageAudio>,
}

/// A delta of a message, as streamed chunks carry it.
#[derive(Debug, Clone, PartialEq)]
pub struct ChatChoiceMessageStream {
    pub content: Option<String>,
    pub refusal: Option<String>,
    pub tool_calls: Option<Vec<ChatMessageToolCall>>,
    pub role: Option<String>,
    pub function_call: Option<ChatMessageFunctionCall>,
}

/// One choice of a single-response call.
#[derive(Debug, Clone, PartialEq)]
pub struct ChatChoice {
    pub finish_reason: Option<String>,
    pub index: Option<u32>,
    pub message: Option<ChatChoiceMessage>,
    pub logprobs: Option<ChatLogprobs>,
}

/// One choice of a streamed chunk.
#[derive(Debug, Clone, PartialEq)]
pub struct ChatChoiceStream {
    pub finish_reason: Option<String>,
    pub index: Option<u32>,
    pub delta: Option<ChatChoiceMessageStream>,
    pub logprobs: Option<ChatLogprobs>,
}

} // verus!
