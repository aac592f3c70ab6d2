//! The caller-facing chat request: messages plus gathered options, built
//! into the wire-ready shape on demand.
use vstd::prelude::*;

use crate::chat::request::{
    ChatCompletionRequest, ChatCompletionRequestBuilder, ChatCompletionRequestBuilderView,
    ChatCompletionRequestMessage, ChatCompletionRequestMessageView,
};
use crate::error::Error;
use crate::request::message::{
    convert_err_text, converted, convertible, ChatMessage, ChatMessageView, MessageContentView,
};
use crate::types::UserContentView;
use crate::request::Requestable;
use crate::types::{ChatResponseFormat, ChatTool};

verus! {

/// Whether every message of the list can take its wire-ready form.
pub open spec fn messages_convertible(ms: Seq<ChatMessageView>) -> bool {
    forall|i: int| 0 <= i < ms.len() ==> convertible(#[trigger] ms[i])
}

/// The wire-ready forms of the messages, in order.
pub open spec fn converted_messages(ms: Seq<ChatMessageView>) -> Seq<
    ChatCompletionRequestMessageView,
> {
    Seq::new(ms.len(), |i: int| converted(ms[i]))
}

/// The position of the first message that cannot take its wire-ready
/// form (meaningful only where one exists).
pub open spec fn first_unconvertible(ms: Seq<ChatMessageView>) -> int
    decreases ms.len(),
{
    if ms.len() == 0 {
        0
    } else if !convertible(ms.first()) {
        0
    } else {
        1 + first_unconvertible(ms.drop_first())
    }
}

/// A scan that stops at the first unconvertible message finds
/// `first_unconvertible`.
proof fn lemma_first_unconvertible(ms: Seq<ChatMessageView>, i: int)
    requires
        0 <= i < ms.len(),
        !convertible(ms[i]),
        forall|k: int| 0 <= k < i ==> convertible(#[trigger] ms[k]),
    ensures
        first_unconvertible(ms) == i,
    decreases ms.len(),
{
    if i > 0 {
        lemma_first_unconvertible(ms.drop_first(), i - 1);
    }
}

/// The mathematical content of a [`ChatRequest`].
pub struct ChatRequestView {
    pub builder: ChatCompletionRequestBuilderView,
    pub messages: Seq<ChatMessageView>,
}

/// A chat request as the caller assembles it: messages, and the other
/// fields gathered in a builder.
#[derive(Debug)]
pub struct ChatRequest {
    pub builder: ChatCompletionRequestBuilder,
    pub messages: Vec<ChatMessage>,
}

impl View for ChatRequest {
    type V = ChatRequestView;

    open spec fn view(&self) -> ChatRequestView {
        ChatRequestView {
            builder: self.builder@,
            messages: Seq::new(self.messages@.len(), |i: int| self.messages@[i]@),
        }
    }
}

/// Whether the request can be built: every message convertible and the
/// model set.
pub open spec fn build_ok(r: ChatRequestView) -> bool {
    messages_convertible(r.messages) && r.builder.model is Some
}

/// What a successful build yields.
pub open spec fn built(r: ChatRequestView) -> crate::chat::request::ChatCompletionRequestView {
    crate::chat::request::ChatCompletionRequestView {
        model: r.builder.model.unwrap(),
        messages: converted_messages(r.messages),
        stream: r.builder.stream,
        tools: r.builder.tools,
        response_format: r.builder.response_format,
    }
}

/// The message of the error a failing build reports: the first
/// unconvertible message's error, else the missing model.
pub open spec fn build_err_text(r: ChatRequestView) -> Seq<char> {
    if !messages_convertible(r.messages) {
        convert_err_text(r.messages[first_unconvertible(r.messages)])
    } else {
        "Field not initialized: model"@
    }
}

impl ChatRequest {
    /// A request for the given model with the given messages.
    pub fn new(model: &str, messages: Vec<ChatMessage>) -> (r: Self)
        ensures
            r@.builder.model == Some(model@),
            r@.builder.stream is None,
            r@.builder.tools is None,
            r@.builder.response_format is None,
            r@.messages == Seq::new(messages@.len(), |i: int| messages@[i]@),
    {
        let mut builder = ChatCompletionRequestBuilder::new();
        builder.model(model);
        ChatRequest { builder, messages }
    }

    /// A request for the given model with no messages yet.
    pub fn from_model(model: &str) -> (r: Self)
        ensures
            r@.builder.model == Some(model@),
            r@.builder.stream is None,
            r@.builder.tools is None,
            r@.builder.response_format is None,
            r@.messages.len() == 0,
    {
        ChatRequest::new(model, Vec::new())
    }

    /// A request holding one system message and no model yet.
    pub fn from_system(message: &str) -> (r: Self)
        ensures
            r@.builder.model is None,
            r@.builder.stream is None,
            r@.builder.tools is None,
            r@.builder.response_format is None,
            r@.messages =~= seq![ChatMessageView::System(MessageContentView::Text(message@))],
    {
        let mut messages: Vec<ChatMessage> = Vec::new();
        messages.push(ChatMessage::system(message));
        ChatRequest { builder: ChatCompletionRequestBuilder::new(), messages }
    }

    /// The messages gathered so far, in order.
    pub fn iter_messages(&self) -> (r: &Vec<ChatMessage>)
        ensures
            r == &self.messages,
    {
        &self.messages
    }

    /// The builder holding the request's other fields, for direct
    /// adjustment.
    pub fn as_inner_mut(&mut self) -> (r: &mut ChatCompletionRequestBuilder)
        ensures
            *r == old(self).builder,
            *final(self) == (ChatRequest { builder: *final(r), ..*old(self) }),
    {
        &mut self.builder
    }

    /// Builds the wire-ready request: every message converted, the model
    /// required.  A message that cannot be converted is reported first.
    pub fn build(self) -> (r: Result<ChatCompletionRequest, Error>)
        ensures
            r is Ok <==> build_ok(self@),
            r matches Ok(w) ==> w@ == built(self@),
            r matches Err(e) ==> e matches Error::InvalidArgument(m) && m@ == build_err_text(
                self@,
            ),
    {
        let ghost v = self@;
        let mut wire: Vec<ChatCompletionRequestMessage> = Vec::new();
        let mut i: usize = 0;
        while i < self.messages.len()
            invariant
                i <= self.messages@.len(),
                v == self@,
                v.messages == Seq::new(self.messages@.len(), |k: int| self.messages@[k]@),
                wire@.len() == i,
                forall|k: int| 0 <= k < i ==> convertible(#[trigger] v.messages[k]),
                forall|k: int| 0 <= k < i ==> wire@[k]@ == converted(#[trigger] v.messages[k]),
            decreases self.messages@.len() - i,
        {
            match self.messages[i].to_request_message() {
                Ok(w) => {
                    wire.push(w);
                },
                Err(e) => {
                    proof {
                        lemma_first_unconvertible(v.messages, i as int);
                    }
                    return Err(e);
                },
            }
            i = i + 1;
        }
        proof {
            if messages_convertible(v.messages) {
                assert(Seq::new(wire@.len(), |k: int| wire@[k]@) =~= converted_messages(
                    v.messages,
                ));
            }
        }
        self.builder.build_with_messages(wire)
    }
}

/// Chainable setters, mirroring the builder-style call sites.
impl ChatRequest {
    /// The request with one more system message.
    pub fn system(self, message: &str) -> (r: Self)
        ensures
            r@.builder == self@.builder,
            r@.messages =~= self@.messages.push(ChatMessageView::System(MessageContentView::Text(message@))),
    {
        let ChatRequest { builder, mut messages } = self;
        messages.push(ChatMessage::system(message));
        ChatRequest { builder, messages }
    }

    /// The request with one more user message.
    pub fn user(self, message: &str) -> (r: Self)
        ensures
            r@.builder == self@.builder,
            r@.messages =~= self@.messages.push(ChatMessageView::User(UserContentView::Text(message@))),
    {
        let ChatRequest { builder, mut messages } = self;
        messages.push(ChatMessage::user(message));
        ChatRequest { builder, messages }
    }

    /// The request with one more developer message.
    pub fn developer(self, message: &str) -> (r: Self)
        ensures
            r@.builder == self@.builder,
            r@.messages =~= self@.messages.push(ChatMessageView::Developer(MessageContentView::Text(message@))),
    {
        let ChatRequest { builder, mut messages } = self;
        messages.push(ChatMessage::developer(message));
        ChatRequest { builder, messages }
    }

    /// The request with one more assistant message.
    pub fn assistant(self, message: &str) -> (r: Self)
        ensures
            r@.builder == self@.builder,
            r@.messages =~= self@.messages.push(
                ChatMessageView::Assistant {
                    message_content: Some(MessageContentView::Text(message@)),
                    refusal: None,
                    audio: None,
                },
            ),
    {
        let ChatRequest { builder, mut messages } = self;
        messages.push(ChatMessage::assistant(message));
        ChatRequest { builder, messages }
    }

    /// The request with one more tool message.
    pub fn tool(self, message: &str, tool_call_id: &str) -> (r: Self)
        ensures
            r@.builder == self@.builder,
            r@.messages =~= self@.messages.push(
                ChatMessageView::Tool {
                    message_content: MessageContentView::Text(message@),
                    tool_call_id: tool_call_id@,
                },
            ),
    {
        let ChatRequest { builder, mut messages } = self;
        messages.push(ChatMessage::tool(message, tool_call_id));
        ChatRequest { builder, messages }
    }

    /// The request with its model set.
    pub fn model(self, model: &str) -> (r: Self)
        ensures
            r@.messages == self@.messages,
            r@.builder == (ChatCompletionRequestBuilderView {
                model: Some(model@),
                ..self@.builder
            }),
    {
        let ChatRequest { mut builder, messages } = self;
        builder.model(model);
        ChatRequest { builder, messages }
    }

    /// The request marked as a streaming request.
    pub fn stream(self) -> (r: Self)
        ensures
            r@.messages == self@.messages,
            r@.builder == (ChatCompletionRequestBuilderView {
                stream: Some(true),
                ..self@.builder
            }),
    {
        let ChatRequest { mut builder, messages } = self;
        builder.stream(true);
        ChatRequest { builder, messages }
    }

    /// The request with its tools set.
    pub fn tools(self, tools: Vec<ChatTool>) -> (r: Self)
        ensures
            r@.messages == self@.messages,
            r@.builder == (ChatCompletionRequestBuilderView {
                tools: Some(Seq::new(tools@.len(), |i: int| tools@[i]@)),
                ..self@.builder
            }),
    {
        let ChatRequest { mut builder, messages } = self;
        builder.tools(tools);
        ChatRequest { builder, messages }
    }

    /// The request with its response format set.
    pub fn response_format(self, response_format: ChatResponseFormat) -> (r: Self)
        ensures
            r@.messages == self@.messages,
            r@.builder == (ChatCompletionRequestBuilderView {
                response_format: Some(response_format@),
                ..self@.builder
            }),
    {
        let ChatRequest { mut builder, messages } = self;
        builder.response_format(response_format);
        ChatRequest { builder, messages }
    }
}

impl Default for ChatRequest {
    /// An empty request: nothing set, no messages.
    fn default() -> (r: Self)
        ensures
            r@.builder.model is None,
            r@.builder.stream is None,
            r@.builder.tools is None,
            r@.builder.response_format is None,
            r@.messages.len() == 0,
    {
        ChatRequest { builder: ChatCompletionRequestBuilder::new(), messages: Vec::new() }
    }
}

impl Clone for ChatRequest {
    fn clone(&self) -> (r: Self)
        ensures
            r@ == self@,
    {
        let mut messages: Vec<ChatMessage> = Vec::new();
        let mut i: usize = 0;
        while i < self.messages.len()
            invariant
                i <= self.messages@.len(),
                messages@.len() == i,
                forall|k: int| 0 <= k < i ==> messages@[k]@ == self.messages@[k]@,
            decreases self.messages@.len() - i,
        {
            messages.push(self.messages[i].clone());
            i = i + 1;
        }
        let r = ChatRequest { builder: self.builder.clone(), messages };
        proof {
            assert(Seq::new(r.messages@.len(), |k: int| r.messages@[k]@) =~= Seq::new(
                self.messages@.len(),
                |k: int| self.messages@[k]@,
            ));
        }
        r
    }
}

impl crate::Printable for ChatRequest {
    /// The canonical compact body this request would put on the wire.
    fn to_string_pretty(&self) -> (r: Result<String, Error>)
        ensures
            r is Ok <==> build_ok(self@),
            r matches Ok(t) ==> t@ == crate::wire::min_text_of(
                crate::chat::codec::request_rep(built(self@)),
            ),
            r matches Err(e) ==> (e matches Error::InvalidArgument(m) && m@ == build_err_text(
                self@,
            )),
    {
        let built_request = self.clone().build()?;
        let json = crate::chat::codec::request_to_json(&built_request);
        Ok(crate::wire::json_min_text(&json))
    }
}

impl Requestable for ChatRequest {
    open spec fn stream_flag(&self) -> bool {
        self@.builder.stream == Some(true)
    }

    open spec fn wire_ok(&self) -> bool {
        build_ok(self@)
    }

    open spec fn wire_err_text(&self) -> Seq<char> {
        build_err_text(self@)
    }

    open spec fn wire_text(&self) -> Seq<char> {
        crate::wire::min_text_of(crate::chat::codec::request_rep(built(self@)))
    }

    fn stream(&self) -> (r: bool) {
        match self.builder.stream {
            Some(b) => b,
            None => false,
        }
    }
}

} // verus!
