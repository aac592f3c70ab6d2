//! The declarative data shapes mirrored from the upstream API.
use vstd::prelude::*;

pub mod assistant_audio;
pub mod assistant_content;
pub mod assistant_tool_call;
pub mod chat_audio;
pub mod chat_choice;
pub mod chat_function;
pub mod chat_function_call;
pub mod chat_response_format;
pub mod chat_tool;
pub mod chat_tool_choice;
pub mod completion_choice;
pub mod completion_usage;
pub mod content;
pub mod image_url;
pub mod input_audio;
pub mod prediction_content;
pub mod reasoning_effort;
pub mod stop;
pub mod stream;
pub mod user_content;

pub use assistant_audio::AssistantAudio;
pub use assistant_content::{
    AssistantContent, AssistantContentPart, AssistantContentPartView, AssistantContentView,
};
pub use assistant_tool_call::{AssistantFunctionCall, AssistantToolCall, ToolType};
pub use chat_audio::{ChatAudio, ChatAudioFormat, ChatAudioVoice};
pub use chat_choice::{
    ChatChoice, ChatChoiceMessage, ChatChoiceMessageStream, ChatChoiceStream, ChatLogprobs,
    ChatLogprobsLogProb, ChatLogprobsMessage, ChatMessageAudio, ChatMessageFunctionCall,
    ChatMessageToolCall,
};
pub use chat_function::ChatFunction;
pub use chat_function_call::{ChatFunctionCall, ChatFunctionCallFunction};
pub use chat_response_format::{
    ChatResponseFormat, ChatResponseFormatView, JsonSchema, JsonSchemaView,
};
pub use chat_tool::{ChatTool, ChatToolFunction, ChatToolFunctionView, ChatToolView};
pub use chat_tool_choice::{ChatToolChoice, ChatToolChoiceFunction, ChatToolChoiceNamedOption};
pub use completion_choice::{CompletionChoice, CompletionLogprobs};
pub use completion_usage::{CompletionUsage, CompletionUsageStream};
pub use content::{Content, ContentView};
pub use image_url::{ImageDetail, ImageUrl, ImageUrlView};
pub use input_audio::{InputAudio, InputAudioFormat, InputAudioView};
pub use prediction_content::{PredictionContent, PredictionContentContent, PredictionContentPart};
pub use reasoning_effort::ReasoningEffort;
pub use stop::Stop;
pub use stream::StreamOptions;
pub use user_content::{UserContent, UserContentPart, UserContentPartView, UserContentView};

verus! {

} // verus!
