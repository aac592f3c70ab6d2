//! Chat messages as the caller writes them, and their conversion into the
//! wire-ready request message shape.
use vstd::prelude::*;

use crate::chat::request::{ChatCompletionRequestMessage, ChatCompletionRequestMessageView};
use crate::error::Error;
use crate::types::{AssistantContentView, ImageUrl, UserContent, UserContentPart, UserContentPartView, UserContentView};
use crate::types::AssistantContent;

verus! {

/// The mathematical content of a [`MessageContent`].
pub enum MessageContentView {
    Text(Seq<char>),
    Array(Seq<Seq<char>>),
}

/// What a developer, system, assistant or tool message carries: one text,
/// or an array of texts.
#[derive(Debug, PartialEq)]
pub enum MessageContent {
    Text(String),
    Array(Vec<String>),
}

impl View for MessageContent {
    type V = MessageContentView;

    open spec fn view(&self) -> MessageContentView {
        match self {
            MessageContent::Text(s) => MessageContentView::Text(s@),
            MessageContent::Array(items) => MessageContentView::Array(
                Seq::new(items@.len(), |i: int| items@[i]@),
            ),
        }
    }
}

impl Clone for MessageContent {
    fn clone(&self) -> (r: Self)
        ensures
            r@ == self@,
    {
        match self {
            MessageContent::Text(s) => MessageContent::Text(s.clone()),
            MessageContent::Array(items) => {
                let mut copy: Vec<String> = Vec::new();
                let mut i: usize = 0;
                while i < items.len()
                    invariant
                        i <= items@.len(),
                        copy@.len() == i,
                        forall|k: int| 0 <= k < i ==> copy@[k]@ == items@[k]@,
                    decreases items@.len() - i,
                {
                    copy.push(items[i].clone());
                    i = i + 1;
                }
                let r = MessageContent::Array(copy);
                proof {
                    assert(r@ matches MessageContentView::Array(a) && self@
                        matches MessageContentView::Array(b) ==> a =~= b);
                }
                r
            },
        }
    }
}

impl MessageContent {
    /// Content holding one text.
    pub fn text(s: &str) -> (r: Self)
        ensures
            r@ == MessageContentView::Text(s@),
    {
        MessageContent::Text(s.to_owned())
    }
}


/// The mathematical content of a [`ChatMessage`].
pub enum ChatMessageView {
    Developer(MessageContentView),
    System(MessageContentView),
    User(UserContentView),
    Assistant {
        message_content: Option<MessageContentView>,
        refusal: Option<Seq<char>>,
        audio: Option<Seq<char>>,
    },
    Tool { message_content: MessageContentView, tool_call_id: Seq<char> },
}

/// One message of a conversation, by role.
#[derive(Debug, PartialEq)]
pub enum ChatMessage {
    Developer(MessageContent),
    System(MessageContent),
    User(UserContent),
    Assistant {
        message_content: Option<MessageContent>,
        refusal: Option<String>,
        audio: Option<String>,
    },
    Tool { message_content: MessageContent, tool_call_id: String },
}

impl View for ChatMessage {
    type V = ChatMessageView;

    open spec fn view(&self) -> ChatMessageView {
        match self {
            ChatMessage::Developer(c) => ChatMessageView::Developer(c@),
            ChatMessage::System(c) => ChatMessageView::System(c@),
            ChatMessage::User(c) => ChatMessageView::User(c@),
            ChatMessage::Assistant { message_content, refusal, audio } => ChatMessageView::Assistant {
                message_content: match message_content {
                    Some(c) => Some(c@),
                    None => None,
                },
                refusal: match refusal {
                    Some(s) => Some(s@),
                    None => None,
                },
                audio: match audio {
                    Some(s) => Some(s@),
                    None => None,
                },
            },
            ChatMessage::Tool { message_content, tool_call_id } => ChatMessageView::Tool {
                message_content: message_content@,
                tool_call_id: tool_call_id@,
            },
        }
    }
}

impl Clone for ChatMessage {
    fn clone(&self) -> (r: Self)
        ensures
            r@ == self@,
    {
        match self {
            ChatMessage::Developer(c) => ChatMessage::Developer(c.clone()),
            ChatMessage::System(c) => ChatMessage::System(c.clone()),
            ChatMessage::User(c) => ChatMessage::User(c.clone()),
            ChatMessage::Assistant { message_content, refusal, audio } => ChatMessage::Assistant {
                message_content: match message_content {
                    Some(c) => Some(c.clone()),
                    None => None,
                },
                refusal: match refusal {
                    Some(s) => Some(s.clone()),
                    None => None,
                },
                audio: match audio {
                    Some(s) => Some(s.clone()),
                    None => None,
                },
            },
            ChatMessage::Tool { message_content, tool_call_id } => ChatMessage::Tool {
                message_content: message_content.clone(),
                tool_call_id: tool_call_id.clone(),
            },
        }
    }
}

impl ChatMessage {
    /// A system message with plain text content.
    pub fn system(message: &str) -> (r: Self)
        ensures
            r@ == ChatMessageView::System(MessageContentView::Text(message@)),
    {
        ChatMessage::System(MessageContent::text(message))
    }

    /// A user message with plain text content.
    pub fn user(message: &str) -> (r: Self)
        ensures
            r@ == ChatMessageView::User(UserContentView::Text(message@)),
    {
        ChatMessage::User(UserContent::Text(message.to_owned()))
    }

    /// A user message holding one image.
    pub fn user_image(image_url: ImageUrl) -> (r: Self)
        ensures
            r@ == ChatMessageView::User(
                UserContentView::Array(
                    seq![(UserContentPartView::ImageUrl { image_url: image_url@ })],
                ),
            ),
    {
        let mut parts: Vec<UserContentPart> = Vec::new();
        parts.push(UserContentPart::image(image_url));
        let r = ChatMessage::User(UserContent::Array(parts));
        proof {
            assert(r@ matches ChatMessageView::User(UserContentView::Array(a)) && a =~= seq![
                (UserContentPartView::ImageUrl { image_url: image_url@ }),
            ]);
        }
        r
    }

    /// A user message holding one text and one image, in that order.
    pub fn user_image_with_text(text: &str, image_url: ImageUrl) -> (r: Self)
        ensures
            r@ == ChatMessageView::User(
                UserContentView::Array(
                    seq![
                        (UserContentPartView::Text { text: text@ }),
                        (UserContentPartView::ImageUrl { image_url: image_url@ }),
                    ],
                ),
            ),
    {
        let mut parts: Vec<UserContentPart> = Vec::new();
        parts.push(UserContentPart::text(text));
        parts.push(UserContentPart::image(image_url));
        let r = ChatMessage::User(UserContent::Array(parts));
        proof {
            assert(r@ matches ChatMessageView::User(UserContentView::Array(a)) && a =~= seq![
                (UserContentPartView::Text { text: text@ }),
                (UserContentPartView::ImageUrl { image_url: image_url@ }),
            ]);
        }
        r
    }

    /// A user message holding the given parts.
    pub fn user_parts(parts: Vec<UserContentPart>) -> (r: Self)
        ensures
            r@ == ChatMessageView::User(
                UserContentView::Array(Seq::new(parts@.len(), |i: int| parts@[i]@)),
            ),
    {
        ChatMessage::User(UserContent::Array(parts))
    }

    /// A developer message with plain text content.
    pub fn developer(message: &str) -> (r: Self)
        ensures
            r@ == ChatMessageView::Developer(MessageContentView::Text(message@)),
    {
        ChatMessage::Developer(MessageContent::text(message))
    }

    /// An assistant message with plain text content and neither refusal
    /// nor audio.
    pub fn assistant(message: &str) -> (r: Self)
        ensures
            r@ == (ChatMessageView::Assistant {
                message_content: Some(MessageContentView::Text(message@)),
                refusal: None,
                audio: None,
            }),
    {
        ChatMessage::Assistant {
            message_content: Some(MessageContent::text(message)),
            refusal: None,
            audio: None,
        }
    }

    /// A tool message answering the given tool call.
    pub fn tool(message: &str, tool_call_id: &str) -> (r: Self)
        ensures
            r@ == (ChatMessageView::Tool {
                message_content: MessageContentView::Text(message@),
                tool_call_id: tool_call_id@,
            }),
    {
        ChatMessage::Tool {
            message_content: MessageContent::text(message),
            tool_call_id: tool_call_id.to_owned(),
        }
    }
}

/// Whether a message can be turned into its wire-ready form: every role
/// can, except an assistant message without plain text content.
pub open spec fn convertible(m: ChatMessageView) -> bool {
    match m {
        ChatMessageView::Assistant { message_content, .. } => message_content matches Some(
            MessageContentView::Text(_),
        ),
        _ => true,
    }
}

/// The wire-ready form of a convertible message.  An assistant message
/// keeps only its content: refusal and audio do not travel in a request.
pub open spec fn converted(m: ChatMessageView) -> ChatCompletionRequestMessageView {
    match m {
        ChatMessageView::Developer(c) => ChatCompletionRequestMessageView::Developer { content: c },
        ChatMessageView::System(c) => ChatCompletionRequestMessageView::System { content: c },
        ChatMessageView::User(c) => ChatCompletionRequestMessageView::User { content: c },
        ChatMessageView::Assistant { message_content, .. } => match message_content {
            Some(MessageContentView::Text(s)) => ChatCompletionRequestMessageView::Assistant {
                content: AssistantContentView::Text(s),
            },
            _ => ChatCompletionRequestMessageView::Assistant {
                content: AssistantContentView::Text(Seq::empty()),
            },
        },
        ChatMessageView::Tool { message_content, tool_call_id } => ChatCompletionRequestMessageView::Tool {
            content: message_content,
            tool_call_id: tool_call_id,
        },
    }
}

/// The message of the error reported for a message that cannot be
/// converted.
pub open spec fn convert_err_text(m: ChatMessageView) -> Seq<char> {
    if m matches ChatMessageView::Assistant { message_content: None, .. } {
        "assistant message without content is not supported"@
    } else {
        "assistant message with array content is not supported"@
    }
}

impl ChatMessage {
    /// The wire-ready form of this message, or `InvalidArgument` for an
    /// assistant message without plain text content.
    pub fn to_request_message(&self) -> (r: Result<ChatCompletionRequestMessage, Error>)
        ensures
            convertible(self@) ==> (r matches Ok(w) && w@ == converted(self@)),
            !convertible(self@) ==> (r matches Err(e) && e matches Error::InvalidArgument(msg)
                && msg@ == convert_err_text(self@)),
    {
        match self {
            ChatMessage::Developer(c) => Ok(
                ChatCompletionRequestMessage::Developer { content: c.clone() },
            ),
            ChatMessage::System(c) => Ok(ChatCompletionRequestMessage::System { content: c.clone() }),
            ChatMessage::User(c) => Ok(ChatCompletionRequestMessage::User { content: c.clone() }),
            ChatMessage::Assistant { message_content, .. } => match message_content {
                Some(MessageContent::Text(s)) => Ok(
                    ChatCompletionRequestMessage::Assistant {
                        content: AssistantContent::Text(s.clone()),
                    },
                ),
                Some(MessageContent::Array(_)) => Err(
                    Error::InvalidArgument(
                        String::from_str("assistant message with array content is not supported"),
                    ),
                ),
                None => Err(
                    Error::InvalidArgument(
                        String::from_str("assistant message without content is not supported"),
                    ),
                ),
            },
            ChatMessage::Tool { message_content, tool_call_id } => Ok(
                ChatCompletionRequestMessage::Tool {
                    content: message_content.clone(),
                    tool_call_id: tool_call_id.clone(),
                },
            ),
        }
    }
}

} // verus!
