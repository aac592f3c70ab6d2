//! The wire-ready chat request: what is serialized and sent.
use vstd::prelude::*;

use crate::error::Error;
use crate::request::message::MessageContentView;
use crate::request::MessageContent;
use crate::types::{
    AssistantContent, AssistantContentView, ChatResponseFormat, ChatResponseFormatView, ChatTool,
    ChatToolView, UserContent, UserContentView,
};

verus! {

/// The mathematical content of a [`ChatCompletionRequestMessage`].
pub enum ChatCompletionRequestMessageView {
    Developer { content: MessageContentView },
    System { content: MessageContentView },
    User { content: UserContentView },
    Assistant { content: AssistantContentView },
    Tool { content: MessageContentView, tool_call_id: Seq<char> },
}

/// One message in its wire-ready form, by role.
#[derive(Debug, PartialEq)]
pub enum ChatCompletionRequestMessage {
    Developer { content: MessageContent },
    System { content: MessageContent },
    User { content: UserContent },
    Assistant { content: AssistantContent },
    Tool { content: MessageContent, tool_call_id: String },
}

impl View for ChatCompletionRequestMessage {
    type V = ChatCompletionRequestMessageView;

    open spec fn view(&self) -> ChatCompletionRequestMessageView {
        match self {
            ChatCompletionRequestMessage::Developer { content } => ChatCompletionRequestMessageView::Developer {
                content: content@,
            },
            ChatCompletionRequestMessage::System { content } => ChatCompletionRequestMessageView::System {
                content: content@,
            },
            ChatCompletionRequestMessage::User { content } => ChatCompletionRequestMessageView::User {
                content: content@,
            },
            ChatCompletionRequestMessage::Assistant { content } => ChatCompletionRequestMessageView::Assistant {
                content: content@,
            },
            ChatCompletionRequestMessage::Tool { content, tool_call_id } => ChatCompletionRequestMessageView::Tool {
                content: content@,
                tool_call_id: tool_call_id@,
            },
        }
    }
}

/// The mathematical content of a [`ChatCompletionRequestBuilder`].
pub struct ChatCompletionRequestBuilderView {
    pub model: Option<Seq<char>>,
    pub stream: Option<bool>,
    pub tools: Option<Seq<ChatToolView>>,
    pub response_format: Option<ChatResponseFormatView>,
}

/// The request's optional fields, gathered before it is built.
#[derive(Debug, Default)]
pub struct ChatCompletionRequestBuilder {
    pub model: Option<String>,
    pub stream: Option<bool>,
    pub tools: Option<Vec<ChatTool>>,
    pub response_format: Option<ChatResponseFormat>,
}

impl View for ChatCompletionRequestBuilder {
    type V = ChatCompletionRequestBuilderView;

    open spec fn view(&self) -> ChatCompletionRequestBuilderView {
        ChatCompletionRequestBuilderView {
            model: match self.model {
                Some(ref m) => Some(m@),
                None => None,
            },
            stream: self.stream,
            tools: match self.tools {
                Some(ref ts) => Some(Seq::new(ts@.len(), |i: int| ts@[i]@)),
                None => None,
            },
            response_format: match self.response_format {
                Some(ref f) => Some(f@),
                None => None,
            },
        }
    }
}

impl Clone for ChatCompletionRequestBuilder {
    fn clone(&self) -> (r: Self)
        ensures
            r@ == self@,
    {
        let tools: Option<Vec<ChatTool>> = match &self.tools {
            Some(ts) => {
                let mut copy: Vec<ChatTool> = Vec::new();
                let mut i: usize = 0;
                while i < ts.len()
                    invariant
                        i <= ts@.len(),
                        copy@.len() == i,
                        forall|k: int| 0 <= k < i ==> copy@[k]@ == ts@[k]@,
                    decreases ts@.len() - i,
                {
                    copy.push(ts[i].clone());
                    i = i + 1;
                }
                proof {
                    assert(Seq::new(copy@.len(), |k: int| copy@[k]@) =~= Seq::new(
                        ts@.len(),
                        |k: int| ts@[k]@,
                    ));
                }
                Some(copy)
            },
            None => None,
        };
        ChatCompletionRequestBuilder {
            model: match &self.model {
                Some(m) => Some(m.clone()),
                None => None,
            },
            stream: self.stream,
            tools,
            response_format: match &self.response_format {
                Some(f) => Some(f.clone()),
                None => None,
            },
        }
    }
}

impl ChatCompletionRequestBuilder {
    /// An empty builder: nothing set.
    pub fn new() -> (r: Self)
        ensures
            r@.model is None,
            r@.stream is None,
            r@.tools is None,
            r@.response_format is None,
    {
        ChatCompletionRequestBuilder { model: None, stream: None, tools: None, response_format: None }
    }

    /// Sets the model.
    pub fn model(&mut self, model: &str)
        ensures
            final(self)@ == (ChatCompletionRequestBuilderView {
                model: Some(model@),
                ..old(self)@
            }),
    {
        self.model = Some(model.to_owned());
    }

    /// Sets the stream flag.
    pub fn stream(&mut self, stream: bool)
        ensures
            final(self)@ == (ChatCompletionRequestBuilderView {
                stream: Some(stream),
                ..old(self)@
            }),
    {
        self.stream = Some(stream);
    }

    /// Sets the tools.
    pub fn tools(&mut self, tools: Vec<ChatTool>)
        ensures
            final(self)@ == (ChatCompletionRequestBuilderView {
                tools: Some(Seq::new(tools@.len(), |i: int| tools@[i]@)),
                ..old(self)@
            }),
    {
        self.tools = Some(tools);
    }

    /// Sets the response format.
    pub fn response_format(&mut self, response_format: ChatResponseFormat)
        ensures
            final(self)@ == (ChatCompletionRequestBuilderView {
                response_format: Some(response_format@),
                ..old(self)@
            }),
    {
        self.response_format = Some(response_format);
    }

    /// Builds the request from the gathered fields and the given wire
    /// messages; fails where the model was never set.
    pub fn build_with_messages(self, messages: Vec<ChatCompletionRequestMessage>) -> (r: Result<
        ChatCompletionRequest,
        Error,
    >)
        ensures
            r is Ok <==> self@.model is Some,
            r matches Ok(w) ==> w@ == (ChatCompletionRequestView {
                model: self@.model.unwrap(),
                messages: Seq::new(messages@.len(), |i: int| messages@[i]@),
                stream: self@.stream,
                tools: self@.tools,
                response_format: self@.response_format,
            }),
            r matches Err(e) ==> e matches Error::InvalidArgument(m) && m@
                == "Field not initialized: model"@,
    {
        match self.model {
            Some(model) => Ok(
                ChatCompletionRequest {
                    model,
                    messages,
                    stream: self.stream,
                    tools: self.tools,
                    response_format: self.response_format,
                },
            ),
            None => Err(Error::InvalidArgument(String::from_str("Field not initialized: model"))),
        }
    }
}

/// The mathematical content of a [`ChatCompletionRequest`].
pub struct ChatCompletionRequestView {
    pub model: Seq<char>,
    pub messages: Seq<ChatCompletionRequestMessageView>,
    pub stream: Option<bool>,
    pub tools: Option<Seq<ChatToolView>>,
    pub response_format: Option<ChatResponseFormatView>,
}

/// A chat request ready for the wire: model and messages set, the
/// optional fields as gathered.
#[derive(Debug)]
pub struct ChatCompletionRequest {
    pub model: String,
    pub messages: Vec<ChatCompletionRequestMessage>,
    pub stream: Option<bool>,
    pub tools: Option<Vec<ChatTool>>,
    pub response_format: Option<ChatResponseFormat>,
}

impl View for ChatCompletionRequest {
    type V = ChatCompletionRequestView;

    open spec fn view(&self) -> ChatCompletionRequestView {
        ChatCompletionRequestView {
            model: self.model@,
            messages: Seq::new(self.messages@.len(), |i: int| self.messages@[i]@),
            stream: self.stream,
            tools: match self.tools {
                Some(ref ts) => Some(Seq::new(ts@.len(), |i: int| ts@[i]@)),
                None => None,
            },
            response_format: match self.response_format {
                Some(ref f) => Some(f@),
                None => None,
            },
        }
    }
}

} // verus!
