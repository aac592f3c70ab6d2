//! How the chat request shapes appear as JSON documents.
//!
//! Each `..._rep` function pins down the exact document for a value, and
//! each `..._to_json` function builds it, proved against the former.
use vstd::prelude::*;

use crate::chat::request::{
    ChatCompletionRequest, ChatCompletionRequestMessage, ChatCompletionRequestMessageView,
    ChatCompletionRequestView,
};
use crate::error::Error;
use crate::request::message::{MessageContent, MessageContentView};
use crate::types::{
    AssistantContent, AssistantContentPart, AssistantContentPartView, AssistantContentView,
    ChatResponseFormat, ChatResponseFormatView, ChatTool, ChatToolFunction, ChatToolFunctionView,
    ChatToolView, ImageDetail, ImageUrl, ImageUrlView, InputAudio, InputAudioFormat,
    InputAudioView, JsonSchema, JsonSchemaView, UserContent, UserContentPart, UserContentPartView,
    UserContentView,
};
use crate::wire::{view_json_fields, view_json_vec, Json, JsonView};
use crate::wire::{lemma_view_json_fields, lemma_view_json_vec, lemma_view_variants, view_json};

verus! {

/// Wraps gathered members as an object document.
fn obj_from(fields: Vec<(String, Json)>) -> (r: Json)
    ensures
        r@ == JsonView::Obj(Seq::new(fields@.len(), |i: int| (fields@[i].0@, fields@[i].1@))),
{
    let ghost expected = Seq::new(fields@.len(), |i: int| (fields@[i].0@, fields@[i].1@));
    let r = Json::Obj(fields);
    proof {
        lemma_view_json_fields(fields@);
        assert(view_json_fields(fields@) =~= expected);
    }
    r
}

/// Wraps gathered elements as an array document.
fn arr_from(items: Vec<Json>) -> (r: Json)
    ensures
        r@ == JsonView::Arr(Seq::new(items@.len(), |i: int| items@[i]@)),
{
    let ghost expected = Seq::new(items@.len(), |i: int| items@[i]@);
    let r = Json::Arr(items);
    proof {
        lemma_view_json_vec(items@);
        assert(view_json_vec(items@) =~= expected);
    }
    r
}

/// The document for plain message content: one string, or an array of
/// strings.
pub open spec fn content_rep(c: MessageContentView) -> JsonView {
    match c {
        MessageContentView::Text(s) => JsonView::Str(s),
        MessageContentView::Array(items) => JsonView::Arr(
            Seq::new(items.len(), |i: int| JsonView::Str(items[i])),
        ),
    }
}

/// Builds [`content_rep`].
pub fn content_to_json(c: &MessageContent) -> (r: Json)
    ensures
        r@ == content_rep(c@),
{
    match c {
        MessageContent::Text(s) => Json::Str(s.clone()),
        MessageContent::Array(items) => {
            let mut out: Vec<Json> = Vec::new();
            let mut i: usize = 0;
            while i < items.len()
                invariant
                    i <= items@.len(),
                    out@.len() == i,
                    forall|k: int| 0 <= k < i ==> out@[k]@ == JsonView::Str(#[trigger] items@[k]@),
                decreases items@.len() - i,
            {
                out.push(Json::Str(items[i].clone()));
                i = i + 1;
            }
            let r = arr_from(out);
            proof {
                assert(r@ matches JsonView::Arr(a) && c@ matches MessageContentView::Array(b)
                    ==> a =~= Seq::new(b.len(), |i: int| JsonView::Str(b[i])));
            }
            r
        },
    }
}

/// The text of a detail level.
pub open spec fn detail_text(d: ImageDetail) -> Seq<char> {
    match d {
        ImageDetail::Auto => "auto"@,
        ImageDetail::Low => "low"@,
        ImageDetail::High => "high"@,
    }
}

/// The document for an image reference: the URL, and the detail level
/// where one is set.
pub open spec fn image_url_rep(u: ImageUrlView) -> JsonView {
    match u.detail {
        Some(d) => JsonView::Obj(
            seq![("url"@, JsonView::Str(u.url)), ("detail"@, JsonView::Str(detail_text(d)))],
        ),
        None => JsonView::Obj(seq![("url"@, JsonView::Str(u.url))]),
    }
}

/// Builds [`image_url_rep`].
pub fn image_url_to_json(u: &ImageUrl) -> (r: Json)
    ensures
        r@ == image_url_rep(u@),
{
    let mut fields: Vec<(String, Json)> = Vec::new();
    fields.push((String::from_str("url"), Json::Str(u.url.clone())));
    match u.detail {
        Some(ImageDetail::Auto) => fields.push(
            (String::from_str("detail"), Json::Str(String::from_str("auto"))),
        ),
        Some(ImageDetail::Low) => fields.push(
            (String::from_str("detail"), Json::Str(String::from_str("low"))),
        ),
        Some(ImageDetail::High) => fields.push(
            (String::from_str("detail"), Json::Str(String::from_str("high"))),
        ),
        None => (),
    }
    let r = obj_from(fields);
    proof {
        assert(r@ matches JsonView::Obj(fs) ==> fs =~= (match u@.detail {
            Some(d) => seq![
                ("url"@, JsonView::Str(u@.url)),
                ("detail"@, JsonView::Str(detail_text(d))),
            ],
            None => seq![("url"@, JsonView::Str(u@.url))],
        }));
    }
    r
}

/// The text of an audio format.
pub open spec fn audio_format_text(f: InputAudioFormat) -> Seq<char> {
    match f {
        InputAudioFormat::Wav => "wav"@,
        InputAudioFormat::Mp3 => "mp3"@,
    }
}

/// The document for input audio: the data and its format.
pub open spec fn input_audio_rep(a: InputAudioView) -> JsonView {
    JsonView::Obj(
        seq![
            ("data"@, JsonView::Str(a.data)),
            ("format"@, JsonView::Str(audio_format_text(a.format))),
        ],
    )
}

/// Builds [`input_audio_rep`].
pub fn input_audio_to_json(a: &InputAudio) -> (r: Json)
    ensures
        r@ == input_audio_rep(a@),
{
    let mut fields: Vec<(String, Json)> = Vec::new();
    fields.push((String::from_str("data"), Json::Str(a.data.clone())));
    match a.format {
        InputAudioFormat::Wav => fields.push(
            (String::from_str("format"), Json::Str(String::from_str("wav"))),
        ),
        InputAudioFormat::Mp3 => fields.push(
            (String::from_str("format"), Json::Str(String::from_str("mp3"))),
        ),
    }
    let r = obj_from(fields);
    proof {
        assert(r@ matches JsonView::Obj(fs) ==> fs =~= seq![
            ("data"@, JsonView::Str(a@.data)),
            ("format"@, JsonView::Str(audio_format_text(a@.format))),
        ]);
    }
    r
}

/// The document for one part of a user message, tagged by its kind.
pub open spec fn user_part_rep(p: UserContentPartView) -> JsonView {
    match p {
        UserContentPartView::Text { text } => JsonView::Obj(
            seq![("type"@, JsonView::Str("text"@)), ("text"@, JsonView::Str(text))],
        ),
        UserContentPartView::ImageUrl { image_url } => JsonView::Obj(
            seq![("type"@, JsonView::Str("image_url"@)), ("image_url"@, image_url_rep(image_url))],
        ),
        UserContentPartView::Audio { input_audio } => JsonView::Obj(
            seq![
                ("type"@, JsonView::Str("input_audio"@)),
                ("input_audio"@, input_audio_rep(input_audio)),
            ],
        ),
    }
}

/// Builds [`user_part_rep`].
pub fn user_part_to_json(p: &UserContentPart) -> (r: Json)
    ensures
        r@ == user_part_rep(p@),
{
    let mut fields: Vec<(String, Json)> = Vec::new();
    match p {
        UserContentPart::Text { text } => {
            fields.push((String::from_str("type"), Json::Str(String::from_str("text"))));
            fields.push((String::from_str("text"), Json::Str(text.clone())));
        },
        UserContentPart::ImageUrl { image_url } => {
            fields.push((String::from_str("type"), Json::Str(String::from_str("image_url"))));
            fields.push((String::from_str("image_url"), image_url_to_json(image_url)));
        },
        UserContentPart::Audio { input_audio } => {
            fields.push((String::from_str("type"), Json::Str(String::from_str("input_audio"))));
            fields.push((String::from_str("input_audio"), input_audio_to_json(input_audio)));
        },
    }
    let r = obj_from(fields);
    proof {
        assert(r@ matches JsonView::Obj(fs) ==> fs =~= (match p@ {
            UserContentPartView::Text { text } => seq![
                ("type"@, JsonView::Str("text"@)),
                ("text"@, JsonView::Str(text)),
            ],
            UserContentPartView::ImageUrl { image_url } => seq![
                ("type"@, JsonView::Str("image_url"@)),
                ("image_url"@, image_url_rep(image_url)),
            ],
            UserContentPartView::Audio { input_audio } => seq![
                ("type"@, JsonView::Str("input_audio"@)),
                ("input_audio"@, input_audio_rep(input_audio)),
            ],
        }));
    }
    r
}

/// The document for a user message's content: one string, or the array
/// of its typed parts.
pub open spec fn user_content_rep(u: UserContentView) -> JsonView {
    match u {
        UserContentView::Text(s) => JsonView::Str(s),
        UserContentView::Array(parts) => JsonView::Arr(
            Seq::new(parts.len(), |i: int| user_part_rep(parts[i])),
        ),
    }
}

/// Builds [`user_content_rep`].
pub fn user_content_to_json(u: &UserContent) -> (r: Json)
    ensures
        r@ == user_content_rep(u@),
{
    match u {
        UserContent::Text(s) => Json::Str(s.clone()),
        UserContent::Array(parts) => {
            let mut out: Vec<Json> = Vec::new();
            let mut i: usize = 0;
            while i < parts.len()
                invariant
                    i <= parts@.len(),
                    out@.len() == i,
                    forall|k: int| 0 <= k < i ==> out@[k]@ == user_part_rep(#[trigger] parts@[k]@),
                decreases parts@.len() - i,
            {
                out.push(user_part_to_json(&parts[i]));
                i = i + 1;
            }
            let r = arr_from(out);
            proof {
                assert(r@ matches JsonView::Arr(a) && u@ matches UserContentView::Array(b) ==> a
                    =~= Seq::new(b.len(), |i: int| user_part_rep(b[i])));
            }
            r
        },
    }
}

/// The document for one part of an assistant message.
pub open spec fn assistant_part_rep(p: AssistantContentPartView) -> JsonView {
    match p {
        AssistantContentPartView::Text(text) => JsonView::Obj(
            seq![("type"@, JsonView::Str("text"@)), ("text"@, JsonView::Str(text))],
        ),
        AssistantContentPartView::Refusal { refusal } => JsonView::Obj(
            seq![("type"@, JsonView::Str("refusal"@)), ("refusal"@, JsonView::Str(refusal))],
        ),
    }
}

/// Builds [`assistant_part_rep`].
pub fn assistant_part_to_json(p: &AssistantContentPart) -> (r: Json)
    ensures
        r@ == assistant_part_rep(p@),
{
    let mut fields: Vec<(String, Json)> = Vec::new();
    match p {
        AssistantContentPart::Text(text) => {
            fields.push((String::from_str("type"), Json::Str(String::from_str("text"))));
            fields.push((String::from_str("text"), Json::Str(text.clone())));
        },
        AssistantContentPart::Refusal { refusal } => {
            fields.push((String::from_str("type"), Json::Str(String::from_str("refusal"))));
            fields.push((String::from_str("refusal"), Json::Str(refusal.clone())));
        },
    }
    let r = obj_from(fields);
    proof {
        assert(r@ matches JsonView::Obj(fs) ==> fs =~= (match p@ {
            AssistantContentPartView::Text(text) => seq![
                ("type"@, JsonView::Str("text"@)),
                ("text"@, JsonView::Str(text)),
            ],
            AssistantContentPartView::Refusal { refusal } => seq![
                ("type"@, JsonView::Str("refusal"@)),
                ("refusal"@, JsonView::Str(refusal)),
            ],
        }));
    }
    r
}

/// The document for an assistant message's content.
pub open spec fn assistant_content_rep(a: AssistantContentView) -> JsonView {
    match a {
        AssistantContentView::Text(s) => JsonView::Str(s),
        AssistantContentView::Array(parts) => JsonView::Arr(
            Seq::new(parts.len(), |i: int| assistant_part_rep(parts[i])),
        ),
    }
}

/// Builds [`assistant_content_rep`].
pub fn assistant_content_to_json(a: &AssistantContent) -> (r: Json)
    ensures
        r@ == assistant_content_rep(a@),
{
    match a {
        AssistantContent::Text(s) => Json::Str(s.clone()),
        AssistantContent::Array(parts) => {
            let mut out: Vec<Json> = Vec::new();
            let mut i: usize = 0;
            while i < parts.len()
                invariant
                    i <= parts@.len(),
                    out@.len() == i,
                    forall|k: int| 0 <= k < i ==> out@[k]@ == assistant_part_rep(
                        #[trigger] parts@[k]@,
                    ),
                decreases parts@.len() - i,
            {
                out.push(assistant_part_to_json(&parts[i]));
                i = i + 1;
            }
            let r = arr_from(out);
            proof {
                assert(r@ matches JsonView::Arr(x) && a@ matches AssistantContentView::Array(b)
                    ==> x =~= Seq::new(b.len(), |i: int| assistant_part_rep(b[i])));
            }
            r
        },
    }
}

/// The document for one wire-ready message: its role, its content, and
/// for a tool answer the call it answers.
pub open spec fn message_rep(m: ChatCompletionRequestMessageView) -> JsonView {
    match m {
        ChatCompletionRequestMessageView::Developer { content } => JsonView::Obj(
            seq![("role"@, JsonView::Str("developer"@)), ("content"@, content_rep(content))],
        ),
        ChatCompletionRequestMessageView::System { content } => JsonView::Obj(
            seq![("role"@, JsonView::Str("system"@)), ("content"@, content_rep(content))],
        ),
        ChatCompletionRequestMessageView::User { content } => JsonView::Obj(
            seq![("role"@, JsonView::Str("user"@)), ("content"@, user_content_rep(content))],
        ),
        ChatCompletionRequestMessageView::Assistant { content } => JsonView::Obj(
            seq![
                ("role"@, JsonView::Str("assistant"@)),
                ("content"@, assistant_content_rep(content)),
            ],
        ),
        ChatCompletionRequestMessageView::Tool { content, tool_call_id } => JsonView::Obj(
            seq![
                ("role"@, JsonView::Str("tool"@)),
                ("content"@, content_rep(content)),
                ("tool_call_id"@, JsonView::Str(tool_call_id)),
            ],
        ),
    }
}

/// Builds [`message_rep`].
pub fn message_to_json(m: &ChatCompletionRequestMessage) -> (r: Json)
    ensures
        r@ == message_rep(m@),
{
    let mut fields: Vec<(String, Json)> = Vec::new();
    match m {
        ChatCompletionRequestMessage::Developer { content } => {
            fields.push((String::from_str("role"), Json::Str(String::from_str("developer"))));
            fields.push((String::from_str("content"), content_to_json(content)));
        },
        ChatCompletionRequestMessage::System { content } => {
            fields.push((String::from_str("role"), Json::Str(String::from_str("system"))));
            fields.push((String::from_str("content"), content_to_json(content)));
        },
        ChatCompletionRequestMessage::User { content } => {
            fields.push((String::from_str("role"), Json::Str(String::from_str("user"))));
            fields.push((String::from_str("content"), user_content_to_json(content)));
        },
        ChatCompletionRequestMessage::Assistant { content } => {
            fields.push((String::from_str("role"), Json::Str(String::from_str("assistant"))));
            fields.push((String::from_str("content"), assistant_content_to_json(content)));
        },
        ChatCompletionRequestMessage::Tool { content, tool_call_id } => {
            fields.push((String::from_str("role"), Json::Str(String::from_str("tool"))));
            fields.push((String::from_str("content"), content_to_json(content)));
            fields.push((String::from_str("tool_call_id"), Json::Str(tool_call_id.clone())));
        },
    }
    let r = obj_from(fields);
    proof {
        assert(r@ matches JsonView::Obj(fs) && message_rep(m@) matches JsonView::Obj(gs) ==> fs
            =~= gs);
    }
    r
}

/// The document for a function tool's description.
pub open spec fn tool_fn_rep(f: ChatToolFunctionView) -> JsonView {
    JsonView::Obj(
        seq![("name"@, JsonView::Str(f.name))] + (match f.description {
            Some(d) => seq![("description"@, JsonView::Str(d))],
            None => Seq::empty(),
        }) + (match f.parameters {
            Some(v) => seq![("parameters"@, JsonView::External(v))],
            None => Seq::empty(),
        }) + (match f.strict {
            Some(b) => seq![("strict"@, JsonView::Bool(b))],
            None => Seq::empty(),
        }),
    )
}

/// Builds [`tool_fn_rep`].
pub fn tool_fn_to_json(f: &ChatToolFunction) -> (r: Json)
    ensures
        r@ == tool_fn_rep(f@),
{
    let mut fields: Vec<(String, Json)> = Vec::new();
    fields.push((String::from_str("name"), Json::Str(f.name.clone())));
    if let Some(d) = &f.description {
        fields.push((String::from_str("description"), Json::Str(d.clone())));
    }
    if let Some(v) = &f.parameters {
        fields.push((String::from_str("parameters"), Json::External(v.clone())));
    }
    if let Some(b) = &f.strict {
        fields.push((String::from_str("strict"), Json::Bool(*b)));
    }
    let r = obj_from(fields);
    proof {
        assert(r@ matches JsonView::Obj(fs) && tool_fn_rep(f@) matches JsonView::Obj(gs) ==> fs
            =~= gs);
    }
    r
}

/// The document for a tool, tagged with its kind.
pub open spec fn tool_rep(t: ChatToolView) -> JsonView {
    match t {
        ChatToolView::Function { function } => JsonView::Obj(
            seq![("type"@, JsonView::Str("function"@)), ("function"@, tool_fn_rep(function))],
        ),
    }
}

/// Builds [`tool_rep`].
pub fn tool_to_json(t: &ChatTool) -> (r: Json)
    ensures
        r@ == tool_rep(t@),
{
    let mut fields: Vec<(String, Json)> = Vec::new();
    match t {
        ChatTool::Function { function } => {
            fields.push((String::from_str("type"), Json::Str(String::from_str("function"))));
            fields.push((String::from_str("function"), tool_fn_to_json(function)));
        },
    }
    let r = obj_from(fields);
    proof {
        assert(r@ matches JsonView::Obj(fs) && tool_rep(t@) matches JsonView::Obj(gs) ==> fs =~= gs);
    }
    r
}

/// The document for a named response schema.
pub open spec fn schema_rep(s: JsonSchemaView) -> JsonView {
    JsonView::Obj(
        (match s.description {
            Some(d) => seq![("description"@, JsonView::Str(d))],
            None => Seq::empty(),
        }) + seq![("name"@, JsonView::Str(s.name))] + (match s.schema {
            Some(v) => seq![("schema"@, JsonView::External(v))],
            None => Seq::empty(),
        }) + (match s.strict {
            Some(b) => seq![("strict"@, JsonView::Bool(b))],
            None => Seq::empty(),
        }),
    )
}

/// Builds [`schema_rep`].
pub fn schema_to_json(s: &JsonSchema) -> (r: Json)
    ensures
        r@ == schema_rep(s@),
{
    let mut fields: Vec<(String, Json)> = Vec::new();
    if let Some(d) = &s.description {
        fields.push((String::from_str("description"), Json::Str(d.clone())));
    }
    fields.push((String::from_str("name"), Json::Str(s.name.clone())));
    if let Some(v) = &s.schema {
        fields.push((String::from_str("schema"), Json::External(v.clone())));
    }
    if let Some(b) = &s.strict {
        fields.push((String::from_str("strict"), Json::Bool(*b)));
    }
    let r = obj_from(fields);
    proof {
        assert(r@ matches JsonView::Obj(fs) && schema_rep(s@) matches JsonView::Obj(gs) ==> fs
            =~= gs);
    }
    r
}

/// The document for a response format, tagged with its kind.
pub open spec fn format_rep(f: ChatResponseFormatView) -> JsonView {
    match f {
        ChatResponseFormatView::Text => JsonView::Obj(seq![("type"@, JsonView::Str("text"@))]),
        ChatResponseFormatView::JsonObject => JsonView::Obj(
            seq![("type"@, JsonView::Str("json_object"@))],
        ),
        ChatResponseFormatView::JsonSchema { json_schema } => JsonView::Obj(
            seq![("type"@, JsonView::Str("json_schema"@)), ("json_schema"@, schema_rep(json_schema))],
        ),
    }
}

/// Builds [`format_rep`].
pub fn format_to_json(f: &ChatResponseFormat) -> (r: Json)
    ensures
        r@ == format_rep(f@),
{
    let mut fields: Vec<(String, Json)> = Vec::new();
    match f {
        ChatResponseFormat::Text => {
            fields.push((String::from_str("type"), Json::Str(String::from_str("text"))));
        },
        ChatResponseFormat::JsonObject => {
            fields.push((String::from_str("type"), Json::Str(String::from_str("json_object"))));
        },
        ChatResponseFormat::JsonSchema { json_schema } => {
            fields.push((String::from_str("type"), Json::Str(String::from_str("json_schema"))));
            fields.push((String::from_str("json_schema"), schema_to_json(json_schema)));
        },
    }
    let r = obj_from(fields);
    proof {
        assert(r@ matches JsonView::Obj(fs) && format_rep(f@) matches JsonView::Obj(gs) ==> fs
            =~= gs);
    }
    r
}

/// The document for a whole wire-ready request: model and messages, then
/// each optional field exactly where it is set.
pub open spec fn request_rep(r: ChatCompletionRequestView) -> JsonView {
    JsonView::Obj(
        seq![
            ("model"@, JsonView::Str(r.model)),
            ("messages"@, JsonView::Arr(Seq::new(r.messages.len(), |i: int| message_rep(r.messages[i])))),
        ] + (match r.stream {
            Some(b) => seq![("stream"@, JsonView::Bool(b))],
            None => Seq::empty(),
        }) + (match r.tools {
            Some(ts) => seq![
                ("tools"@, JsonView::Arr(Seq::new(ts.len(), |i: int| tool_rep(ts[i])))),
            ],
            None => Seq::empty(),
        }) + (match r.response_format {
            Some(f) => seq![("response_format"@, format_rep(f))],
            None => Seq::empty(),
        }),
    )
}

/// Builds [`request_rep`].
pub fn request_to_json(r: &ChatCompletionRequest) -> (res: Json)
    ensures
        res@ == request_rep(r@),
{
    let mut fields: Vec<(String, Json)> = Vec::new();
    fields.push((String::from_str("model"), Json::Str(r.model.clone())));
    let mut msgs: Vec<Json> = Vec::new();
    let mut i: usize = 0;
    while i < r.messages.len()
        invariant
            i <= r.messages@.len(),
            msgs@.len() == i,
            forall|k: int| 0 <= k < i ==> msgs@[k]@ == message_rep(#[trigger] r.messages@[k]@),
        decreases r.messages@.len() - i,
    {
        msgs.push(message_to_json(&r.messages[i]));
        i = i + 1;
    }
    let msgs_json = arr_from(msgs);
    proof {
        assert(msgs_json@ matches JsonView::Arr(a) ==> a =~= Seq::new(
            r@.messages.len(),
            |k: int| message_rep(r@.messages[k]),
        ));
    }
    fields.push((String::from_str("messages"), msgs_json));
    if let Some(b) = &r.stream {
        fields.push((String::from_str("stream"), Json::Bool(*b)));
    }
    if let Some(ts) = &r.tools {
        let mut tools: Vec<Json> = Vec::new();
        let mut k: usize = 0;
        while k < ts.len()
            invariant
                k <= ts@.len(),
                tools@.len() == k,
                forall|m: int| 0 <= m < k ==> tools@[m]@ == tool_rep(#[trigger] ts@[m]@),
            decreases ts@.len() - k,
        {
            tools.push(tool_to_json(&ts[k]));
            k = k + 1;
        }
        let tools_json = arr_from(tools);
        proof {
            assert(r@.tools matches Some(tv) && tools_json@ matches JsonView::Arr(a) ==> a
                =~= Seq::new(tv.len(), |m: int| tool_rep(tv[m])));
        }
        fields.push((String::from_str("tools"), tools_json));
    }
    if let Some(f) = &r.response_format {
        fields.push((String::from_str("response_format"), format_to_json(f)));
    }
    let res = obj_from(fields);
    proof {
        assert(res@ matches JsonView::Obj(fs) && request_rep(r@) matches JsonView::Obj(gs) ==> fs
            =~= gs);
    }
    res
}

/// The text of a string document; empty for any other document.
pub open spec fn str_of(j: JsonView) -> Seq<char> {
    match j {
        JsonView::Str(s) => s,
        _ => Seq::empty(),
    }
}

/// Reads plain message content back from its document.
pub open spec fn content_parse(j: JsonView) -> Option<MessageContentView> {
    match j {
        JsonView::Str(s) => Some(MessageContentView::Text(s)),
        JsonView::Arr(items) => if forall|i: int| 0 <= i < items.len() ==> (#[trigger] items[i])
            is Str {
            Some(MessageContentView::Array(Seq::new(items.len(), |i: int| str_of(items[i]))))
        } else {
            None
        },
        _ => None,
    }
}

/// Reads a detail level back from its text.
pub open spec fn detail_parse(s: Seq<char>) -> Option<ImageDetail> {
    if s == "auto"@ {
        Some(ImageDetail::Auto)
    } else if s == "low"@ {
        Some(ImageDetail::Low)
    } else if s == "high"@ {
        Some(ImageDetail::High)
    } else {
        None
    }
}

/// Reads an image reference back from its document.
pub open spec fn image_url_parse(j: JsonView) -> Option<ImageUrlView> {
    match j {
        JsonView::Obj(fields) => if fields.len() == 1 && fields[0].0 == "url"@ && fields[0].1
            is Str {
            Some(ImageUrlView { url: str_of(fields[0].1), detail: None })
        } else if fields.len() == 2 && fields[0].0 == "url"@ && fields[0].1 is Str && fields[1].0
            == "detail"@ && fields[1].1 is Str && detail_parse(str_of(fields[1].1)) is Some {
            Some(
                ImageUrlView {
                    url: str_of(fields[0].1),
                    detail: detail_parse(str_of(fields[1].1)),
                },
            )
        } else {
            None
        },
        _ => None,
    }
}

/// Reads an audio format back from its text.
pub open spec fn audio_format_parse(s: Seq<char>) -> Option<InputAudioFormat> {
    if s == "wav"@ {
        Some(InputAudioFormat::Wav)
    } else if s == "mp3"@ {
        Some(InputAudioFormat::Mp3)
    } else {
        None
    }
}

/// Reads input audio back from its document.
pub open spec fn input_audio_parse(j: JsonView) -> Option<InputAudioView> {
    match j {
        JsonView::Obj(fields) => if fields.len() == 2 && fields[0].0 == "data"@ && fields[0].1
            is Str && fields[1].0 == "format"@ && fields[1].1 is Str && audio_format_parse(
            str_of(fields[1].1),
        ) is Some {
            Some(
                InputAudioView {
                    data: str_of(fields[0].1),
                    format: audio_format_parse(str_of(fields[1].1)).unwrap(),
                },
            )
        } else {
            None
        },
        _ => None,
    }
}

/// Reads one user content part back from its document.
pub open spec fn user_part_parse(j: JsonView) -> Option<UserContentPartView> {
    match j {
        JsonView::Obj(fields) => if fields.len() == 2 && fields[0].0 == "type"@ {
            if fields[0].1 == JsonView::Str("text"@) && fields[1].0 == "text"@ && fields[1].1
                is Str {
                Some(UserContentPartView::Text { text: str_of(fields[1].1) })
            } else if fields[0].1 == JsonView::Str("image_url"@) && fields[1].0 == "image_url"@
                && image_url_parse(fields[1].1) is Some {
                Some(
                    UserContentPartView::ImageUrl {
                        image_url: image_url_parse(fields[1].1).unwrap(),
                    },
                )
            } else if fields[0].1 == JsonView::Str("input_audio"@) && fields[1].0
                == "input_audio"@ && input_audio_parse(fields[1].1) is Some {
                Some(
                    UserContentPartView::Audio {
                        input_audio: input_audio_parse(fields[1].1).unwrap(),
                    },
                )
            } else {
                None
            }
        } else {
            None
        },
        _ => None,
    }
}

/// Reads user content back from its document.
pub open spec fn user_content_parse(j: JsonView) -> Option<UserContentView> {
    match j {
        JsonView::Str(s) => Some(UserContentView::Text(s)),
        JsonView::Arr(items) => if forall|i: int| 0 <= i < items.len() ==> user_part_parse(
            #[trigger] items[i],
        ) is Some {
            Some(
                UserContentView::Array(
                    Seq::new(items.len(), |i: int| user_part_parse(items[i]).unwrap()),
                ),
            )
        } else {
            None
        },
        _ => None,
    }
}

/// Reads one assistant content part back from its document.
pub open spec fn assistant_part_parse(j: JsonView) -> Option<AssistantContentPartView> {
    match j {
        JsonView::Obj(fields) => if fields.len() == 2 && fields[0].0 == "type"@ {
            if fields[0].1 == JsonView::Str("text"@) && fields[1].0 == "text"@ && fields[1].1
                is Str {
                Some(AssistantContentPartView::Text(str_of(fields[1].1)))
            } else if fields[0].1 == JsonView::Str("refusal"@) && fields[1].0 == "refusal"@
                && fields[1].1 is Str {
                Some(AssistantContentPartView::Refusal { refusal: str_of(fields[1].1) })
            } else {
                None
            }
        } else {
            None
        },
        _ => None,
    }
}

/// Reads assistant content back from its document.
pub open spec fn assistant_content_parse(j: JsonView) -> Option<AssistantContentView> {
    match j {
        JsonView::Str(s) => Some(AssistantContentView::Text(s)),
        JsonView::Arr(items) => if forall|i: int| 0 <= i < items.len() ==> assistant_part_parse(
            #[trigger] items[i],
        ) is Some {
            Some(
                AssistantContentView::Array(
                    Seq::new(items.len(), |i: int| assistant_part_parse(items[i]).unwrap()),
                ),
            )
        } else {
            None
        },
        _ => None,
    }
}

/// Reads one wire-ready message back from its document: the exact shape
/// [`message_rep`] emits, by role.
pub open spec fn message_parse(j: JsonView) -> Option<ChatCompletionRequestMessageView> {
    match j {
        JsonView::Obj(fields) => if fields.len() == 2 && fields[0].0 == "role"@ && fields[1].0
            == "content"@ {
            if fields[0].1 == JsonView::Str("developer"@) && content_parse(fields[1].1) is Some {
                Some(
                    ChatCompletionRequestMessageView::Developer {
                        content: content_parse(fields[1].1).unwrap(),
                    },
                )
            } else if fields[0].1 == JsonView::Str("system"@) && content_parse(fields[1].1)
                is Some {
                Some(
                    ChatCompletionRequestMessageView::System {
                        content: content_parse(fields[1].1).unwrap(),
                    },
                )
            } else if fields[0].1 == JsonView::Str("user"@) && user_content_parse(fields[1].1)
                is Some {
                Some(
                    ChatCompletionRequestMessageView::User {
                        content: user_content_parse(fields[1].1).unwrap(),
                    },
                )
            } else if fields[0].1 == JsonView::Str("assistant"@) && assistant_content_parse(
                fields[1].1,
            ) is Some {
                Some(
                    ChatCompletionRequestMessageView::Assistant {
                        content: assistant_content_parse(fields[1].1).unwrap(),
                    },
                )
            } else {
                None
            }
        } else if fields.len() == 3 && fields[0].0 == "role"@ && fields[0].1 == JsonView::Str(
            "tool"@,
        ) && fields[1].0 == "content"@ && content_parse(fields[1].1) is Some && fields[2].0
            == "tool_call_id"@ && fields[2].1 is Str {
            Some(
                ChatCompletionRequestMessageView::Tool {
                    content: content_parse(fields[1].1).unwrap(),
                    tool_call_id: str_of(fields[2].1),
                },
            )
        } else {
            None
        },
        _ => None,
    }
}

/// Plain message content reads back as itself.
pub proof fn lemma_content_round_trip(c: MessageContentView)
    ensures
        content_parse(content_rep(c)) == Some(c),
{
    match c {
        MessageContentView::Text(_) => {},
        MessageContentView::Array(items) => {
            let reps = Seq::new(items.len(), |i: int| JsonView::Str(items[i]));
            assert(forall|i: int| 0 <= i < reps.len() ==> (#[trigger] reps[i]) is Str);
            assert(Seq::new(reps.len(), |i: int| str_of(reps[i])) =~= items);
        },
    }
}

/// An image reference reads back as itself.
pub proof fn lemma_image_url_round_trip(u: ImageUrlView)
    ensures
        image_url_parse(image_url_rep(u)) == Some(u),
{
    reveal_strlit("auto");
    reveal_strlit("low");
    reveal_strlit("high");
    assert("auto"@.len() == 4);
    assert("low"@.len() == 3);
    assert("high"@.len() == 4);
    assert("auto"@[0] == 'a');
    assert("high"@[0] == 'h');
    assert("auto"@ != "low"@);
    assert("auto"@ != "high"@);
    assert("low"@ != "high"@);
}

/// One user content part reads back as itself.
pub proof fn lemma_user_part_round_trip(p: UserContentPartView)
    ensures
        user_part_parse(user_part_rep(p)) == Some(p),
{
    reveal_strlit("text");
    reveal_strlit("image_url");
    reveal_strlit("input_audio");
    reveal_strlit("wav");
    reveal_strlit("mp3");
    assert("text"@.len() == 4);
    assert("image_url"@.len() == 9);
    assert("input_audio"@.len() == 11);
    assert("wav"@.len() == 3);
    assert("mp3"@.len() == 3);
    assert("wav"@[0] == 'w');
    assert("mp3"@[0] == 'm');
    assert("text"@ != "image_url"@);
    assert("text"@ != "input_audio"@);
    assert("image_url"@ != "input_audio"@);
    assert("wav"@ != "mp3"@);
    match p {
        UserContentPartView::Text { .. } => {},
        UserContentPartView::ImageUrl { image_url } => {
            lemma_image_url_round_trip(image_url);
        },
        UserContentPartView::Audio { .. } => {},
    }
}

/// User content reads back as itself.
pub proof fn lemma_user_content_round_trip(u: UserContentView)
    ensures
        user_content_parse(user_content_rep(u)) == Some(u),
{
    match u {
        UserContentView::Text(_) => {},
        UserContentView::Array(parts) => {
            let reps = Seq::new(parts.len(), |i: int| user_part_rep(parts[i]));
            assert forall|i: int| 0 <= i < reps.len() implies user_part_parse(
                #[trigger] reps[i],
            ) is Some by {
                lemma_user_part_round_trip(parts[i]);
            }
            assert forall|i: int| 0 <= i < reps.len() implies user_part_parse(#[trigger] reps[i])
                == Some(parts[i]) by {
                lemma_user_part_round_trip(parts[i]);
            }
            assert(Seq::new(reps.len(), |i: int| user_part_parse(reps[i]).unwrap()) =~= parts);
        },
    }
}

/// Assistant content reads back as itself.
pub proof fn lemma_assistant_content_round_trip(a: AssistantContentView)
    ensures
        assistant_content_parse(assistant_content_rep(a)) == Some(a),
{
    reveal_strlit("text");
    reveal_strlit("refusal");
    assert("text"@.len() == 4);
    assert("refusal"@.len() == 7);
    assert("text"@ != "refusal"@);
    match a {
        AssistantContentView::Text(_) => {},
        AssistantContentView::Array(parts) => {
            let reps = Seq::new(parts.len(), |i: int| assistant_part_rep(parts[i]));
            assert(forall|i: int| 0 <= i < reps.len() ==> assistant_part_parse(
                #[trigger] reps[i],
            ) == Some(parts[i]));
            assert(Seq::new(reps.len(), |i: int| assistant_part_parse(reps[i]).unwrap()) =~= parts);
        },
    }
}

/// Schema fidelity of the wire messages: printing a message as its
/// document and reading the document back yields the same message, for
/// every role, with and without array content.
pub proof fn lemma_message_round_trip(w: ChatCompletionRequestMessageView)
    ensures
        message_parse(message_rep(w)) == Some(w),
{
    reveal_strlit("developer");
    reveal_strlit("system");
    reveal_strlit("user");
    reveal_strlit("assistant");
    reveal_strlit("tool");
    assert("developer"@.len() == 9);
    assert("system"@.len() == 6);
    assert("user"@.len() == 4);
    assert("assistant"@.len() == 9);
    assert("tool"@.len() == 4);
    assert("developer"@[0] == 'd');
    assert("assistant"@[0] == 'a');
    assert("user"@[0] == 'u');
    assert("tool"@[0] == 't');
    assert("developer"@ != "system"@);
    assert("developer"@ != "user"@);
    assert("developer"@ != "assistant"@);
    assert("system"@ != "user"@);
    assert("system"@ != "assistant"@);
    assert("user"@ != "assistant"@);
    assert("user"@ != "tool"@);
    match w {
        ChatCompletionRequestMessageView::Developer { content } => {
            lemma_content_round_trip(content);
        },
        ChatCompletionRequestMessageView::System { content } => {
            lemma_content_round_trip(content);
        },
        ChatCompletionRequestMessageView::User { content } => {
            lemma_user_content_round_trip(content);
        },
        ChatCompletionRequestMessageView::Assistant { content } => {
            lemma_assistant_content_round_trip(content);
        },
        ChatCompletionRequestMessageView::Tool { content, .. } => {
            lemma_content_round_trip(content);
        },
    }
}

/// The message every unparseable document reports.
pub open spec fn unrecognized_message_text() -> Seq<char> {
    "unrecognized chat message shape"@
}

/// Reads plain message content back from a document.
fn content_from_json(j: &Json) -> (r: Result<MessageContent, Error>)
    ensures
        match content_parse(j@) {
            Some(c) => r matches Ok(v) && v@ == c,
            None => r is Err,
        },
{
    match j {
        Json::Str(s) => Ok(MessageContent::Text(s.clone())),
        Json::Arr(items) => {
            let ghost views = view_json_vec(items@);
            proof {
                lemma_view_json_vec(items@);
            }
            let mut texts: Vec<String> = Vec::new();
            let mut i: usize = 0;
            while i < items.len()
                invariant
                    i <= items@.len(),
                    views == view_json_vec(items@),
                    views.len() == items@.len(),
                    forall|k: int| 0 <= k < items@.len() ==> views[k] == view_json(
                        #[trigger] items@[k],
                    ),
                    j@ == JsonView::Arr(views),
                    texts@.len() == i,
                    forall|k: int| 0 <= k < i ==> (#[trigger] views[k]) is Str,
                    forall|k: int| 0 <= k < i ==> texts@[k]@ == str_of(#[trigger] views[k]),
                decreases items@.len() - i,
            {
                match &items[i] {
                    Json::Str(s) => {
                        texts.push(s.clone());
                    },
                    _ => {
                        proof {
                            lemma_view_variants(items@[i as int]);
                            assert(!(views[i as int] is Str));
                        }
                        return Err(
                            Error::Json(String::from_str("unrecognized chat message shape")),
                        );
                    },
                }
                i = i + 1;
            }
            let r = MessageContent::Array(texts);
            proof {
                assert(content_parse(j@) matches Some(c) ==> r@ == c) by {
                    if content_parse(j@) is Some {
                        assert(Seq::new(views.len(), |k: int| str_of(views[k])) =~= Seq::new(
                            texts@.len(),
                            |k: int| texts@[k]@,
                        ));
                    }
                };
            }
            Ok(r)
        },
        _ => {
            proof {
                lemma_view_variants(*j);
            }
            Err(Error::Json(String::from_str("unrecognized chat message shape")))
        },
    }
}

/// Reads an image reference back from a document.
fn image_url_from_json(j: &Json) -> (r: Result<ImageUrl, Error>)
    ensures
        match image_url_parse(j@) {
            Some(u) => r matches Ok(v) && v@ == u,
            None => r is Err,
        },
{
    proof {
        reveal_strlit("auto");
        reveal_strlit("low");
        reveal_strlit("high");
        assert("auto"@.len() == 4);
        assert("low"@.len() == 3);
        assert("high"@.len() == 4);
        assert("auto"@[0] == 'a');
        assert("high"@[0] == 'h');
    }
    match j {
        Json::Obj(fields) => {
            proof {
                lemma_view_json_fields(fields@);
            }
            if fields.len() == 1 {
                if fields[0].0 == String::from_str("url") {
                    if let Json::Str(url) = &fields[0].1 {
                        return Ok(ImageUrl { url: url.clone(), detail: None });
                    }
                }
                Err(Error::Json(String::from_str("unrecognized chat message shape")))
            } else if fields.len() == 2 {
                if fields[0].0 == String::from_str("url") && fields[1].0 == String::from_str(
                    "detail",
                ) {
                    if let Json::Str(url) = &fields[0].1 {
                        if let Json::Str(detail) = &fields[1].1 {
                            if *detail == String::from_str("auto") {
                                return Ok(
                                    ImageUrl { url: url.clone(), detail: Some(ImageDetail::Auto) },
                                );
                            }
                            if *detail == String::from_str("low") {
                                return Ok(
                                    ImageUrl { url: url.clone(), detail: Some(ImageDetail::Low) },
                                );
                            }
                            if *detail == String::from_str("high") {
                                return Ok(
                                    ImageUrl { url: url.clone(), detail: Some(ImageDetail::High) },
                                );
                            }
                        }
                    }
                }
                Err(Error::Json(String::from_str("unrecognized chat message shape")))
            } else {
                Err(Error::Json(String::from_str("unrecognized chat message shape")))
            }
        },
        _ => {
            proof {
                lemma_view_variants(*j);
            }
            Err(Error::Json(String::from_str("unrecognized chat message shape")))
        },
    }
}

/// Reads input audio back from a document.
fn input_audio_from_json(j: &Json) -> (r: Result<InputAudio, Error>)
    ensures
        match input_audio_parse(j@) {
            Some(a) => r matches Ok(v) && v@ == a,
            None => r is Err,
        },
{
    proof {
        reveal_strlit("wav");
        reveal_strlit("mp3");
        assert("wav"@.len() == 3);
        assert("mp3"@.len() == 3);
        assert("wav"@[0] == 'w');
        assert("mp3"@[0] == 'm');
    }
    match j {
        Json::Obj(fields) => {
            proof {
                lemma_view_json_fields(fields@);
            }
            if fields.len() == 2 {
                if fields[0].0 == String::from_str("data") && fields[1].0 == String::from_str(
                    "format",
                ) {
                    if let Json::Str(data) = &fields[0].1 {
                        if let Json::Str(format) = &fields[1].1 {
                            if *format == String::from_str("wav") {
                                return Ok(
                                    InputAudio { data: data.clone(), format: InputAudioFormat::Wav },
                                );
                            }
                            if *format == String::from_str("mp3") {
                                return Ok(
                                    InputAudio { data: data.clone(), format: InputAudioFormat::Mp3 },
                                );
                            }
                        }
                    }
                }
            }
            Err(Error::Json(String::from_str("unrecognized chat message shape")))
        },
        _ => {
            proof {
                lemma_view_variants(*j);
            }
            Err(Error::Json(String::from_str("unrecognized chat message shape")))
        },
    }
}

/// Reads one user content part back from a document.
fn user_part_from_json(j: &Json) -> (r: Result<UserContentPart, Error>)
    ensures
        match user_part_parse(j@) {
            Some(p) => r matches Ok(v) && v@ == p,
            None => r is Err,
        },
{
    proof {
        reveal_strlit("text");
        reveal_strlit("image_url");
        reveal_strlit("input_audio");
        assert("text"@.len() == 4);
        assert("image_url"@.len() == 9);
        assert("input_audio"@.len() == 11);
    }
    match j {
        Json::Obj(fields) => {
            proof {
                lemma_view_json_fields(fields@);
            }
            if fields.len() == 2 {
                if fields[0].0 == String::from_str("type") {
                    if let Json::Str(kind) = &fields[0].1 {
                        if *kind == String::from_str("text") && fields[1].0 == String::from_str(
                            "text",
                        ) {
                            if let Json::Str(text) = &fields[1].1 {
                                return Ok(UserContentPart::Text { text: text.clone() });
                            }
                        } else if *kind == String::from_str("image_url") && fields[1].0
                            == String::from_str("image_url") {
                            if let Ok(image_url) = image_url_from_json(&fields[1].1) {
                                return Ok(UserContentPart::ImageUrl { image_url });
                            }
                        } else if *kind == String::from_str("input_audio") && fields[1].0
                            == String::from_str("input_audio") {
                            if let Ok(input_audio) = input_audio_from_json(&fields[1].1) {
                                return Ok(UserContentPart::Audio { input_audio });
                            }
                        }
                    }
                }
            }
            Err(Error::Json(String::from_str("unrecognized chat message shape")))
        },
        _ => {
            proof {
                lemma_view_variants(*j);
            }
            Err(Error::Json(String::from_str("unrecognized chat message shape")))
        },
    }
}

/// Reads user content back from a document.
fn user_content_from_json(j: &Json) -> (r: Result<UserContent, Error>)
    ensures
        match user_content_parse(j@) {
            Some(c) => r matches Ok(v) && v@ == c,
            None => r is Err,
        },
{
    match j {
        Json::Str(s) => Ok(UserContent::Text(s.clone())),
        Json::Arr(items) => {
            let ghost views = view_json_vec(items@);
            proof {
                lemma_view_json_vec(items@);
            }
            let mut parts: Vec<UserContentPart> = Vec::new();
            let mut i: usize = 0;
            while i < items.len()
                invariant
                    i <= items@.len(),
                    views == view_json_vec(items@),
                    views.len() == items@.len(),
                    forall|k: int| 0 <= k < items@.len() ==> views[k] == view_json(
                        #[trigger] items@[k],
                    ),
                    j@ == JsonView::Arr(views),
                    parts@.len() == i,
                    forall|k: int| 0 <= k < i ==> user_part_parse(#[trigger] views[k]) is Some,
                    forall|k: int| 0 <= k < i ==> parts@[k]@ == user_part_parse(
                        #[trigger] views[k],
                    ).unwrap(),
                decreases items@.len() - i,
            {
                match user_part_from_json(&items[i]) {
                    Ok(p) => {
                        parts.push(p);
                    },
                    Err(e) => {
                        proof {
                            assert(user_part_parse(views[i as int]) is None);
                        }
                        return Err(e);
                    },
                }
                i = i + 1;
            }
            let r = UserContent::Array(parts);
            proof {
                assert(user_content_parse(j@) matches Some(c) ==> r@ == c) by {
                    if user_content_parse(j@) is Some {
                        assert(Seq::new(views.len(), |k: int| user_part_parse(views[k]).unwrap())
                            =~= Seq::new(parts@.len(), |k: int| parts@[k]@));
                    }
                };
            }
            Ok(r)
        },
        _ => {
            proof {
                lemma_view_variants(*j);
            }
            Err(Error::Json(String::from_str("unrecognized chat message shape")))
        },
    }
}

/// Reads assistant content back from a document.
fn assistant_content_from_json(j: &Json) -> (r: Result<AssistantContent, Error>)
    ensures
        match assistant_content_parse(j@) {
            Some(c) => r matches Ok(v) && v@ == c,
            None => r is Err,
        },
{
    proof {
        reveal_strlit("text");
        reveal_strlit("refusal");
        assert("text"@.len() == 4);
        assert("refusal"@.len() == 7);
    }
    match j {
        Json::Str(s) => Ok(AssistantContent::Text(s.clone())),
        Json::Arr(items) => {
            let ghost views = view_json_vec(items@);
            proof {
                lemma_view_json_vec(items@);
            }
            let mut parts: Vec<AssistantContentPart> = Vec::new();
            let mut i: usize = 0;
            while i < items.len()
                invariant
                    i <= items@.len(),
                    views == view_json_vec(items@),
                    views.len() == items@.len(),
                    forall|k: int| 0 <= k < items@.len() ==> views[k] == view_json(
                        #[trigger] items@[k],
                    ),
                    j@ == JsonView::Arr(views),
                    parts@.len() == i,
                    forall|k: int| 0 <= k < i ==> assistant_part_parse(#[trigger] views[k])
                        is Some,
                    forall|k: int| 0 <= k < i ==> parts@[k]@ == assistant_part_parse(
                        #[trigger] views[k],
                    ).unwrap(),
                decreases items@.len() - i,
            {
                match assistant_part_from_json(&items[i]) {
                    Ok(p) => {
                        parts.push(p);
                    },
                    Err(e) => {
                        proof {
                            assert(assistant_part_parse(views[i as int]) is None);
                        }
                        return Err(e);
                    },
                }
                i = i + 1;
            }
            let r = AssistantContent::Array(parts);
            proof {
                assert(assistant_content_parse(j@) matches Some(c) ==> r@ == c) by {
                    if assistant_content_parse(j@) is Some {
                        assert(Seq::new(
                            views.len(),
                            |k: int| assistant_part_parse(views[k]).unwrap(),
                        ) =~= Seq::new(parts@.len(), |k: int| parts@[k]@));
                    }
                };
            }
            Ok(r)
        },
        _ => {
            proof {
                lemma_view_variants(*j);
            }
            Err(Error::Json(String::from_str("unrecognized chat message shape")))
        },
    }
}

/// Reads one assistant content part back from a document.
fn assistant_part_from_json(j: &Json) -> (r: Result<AssistantContentPart, Error>)
    ensures
        match assistant_part_parse(j@) {
            Some(p) => r matches Ok(v) && v@ == p,
            None => r is Err,
        },
{
    proof {
        reveal_strlit("text");
        reveal_strlit("refusal");
        assert("text"@.len() == 4);
        assert("refusal"@.len() == 7);
    }
    match j {
        Json::Obj(fields) => {
            proof {
                lemma_view_json_fields(fields@);
            }
            if fields.len() == 2 {
                if fields[0].0 == String::from_str("type") {
                    if let Json::Str(kind) = &fields[0].1 {
                        if *kind == String::from_str("text") && fields[1].0 == String::from_str(
                            "text",
                        ) {
                            if let Json::Str(text) = &fields[1].1 {
                                return Ok(AssistantContentPart::Text(text.clone()));
                            }
                        } else if *kind == String::from_str("refusal") && fields[1].0
                            == String::from_str("refusal") {
                            if let Json::Str(refusal) = &fields[1].1 {
                                return Ok(AssistantContentPart::Refusal { refusal: refusal.clone() });
                            }
                        }
                    }
                }
            }
            Err(Error::Json(String::from_str("unrecognized chat message shape")))
        },
        _ => {
            proof {
                lemma_view_variants(*j);
            }
            Err(Error::Json(String::from_str("unrecognized chat message shape")))
        },
    }
}

/// Reads one wire-ready message back from a document: exactly the
/// shapes [`message_rep`] emits, and an error with a fixed message for
/// everything else.
pub fn message_from_json(j: &Json) -> (r: Result<ChatCompletionRequestMessage, Error>)
    ensures
        match message_parse(j@) {
            Some(w) => r matches Ok(m) && m@ == w,
            None => r matches Err(e) && (e matches Error::Json(t) && t@
                == unrecognized_message_text()),
        },
{
    proof {
        reveal_strlit("developer");
        reveal_strlit("system");
        reveal_strlit("user");
        reveal_strlit("assistant");
        reveal_strlit("tool");
        assert("developer"@.len() == 9);
        assert("system"@.len() == 6);
        assert("user"@.len() == 4);
        assert("assistant"@.len() == 9);
        assert("tool"@.len() == 4);
        assert("developer"@[0] == 'd');
        assert("assistant"@[0] == 'a');
        assert("user"@[0] == 'u');
        assert("tool"@[0] == 't');
    }
    match j {
        Json::Obj(fields) => {
            proof {
                lemma_view_json_fields(fields@);
            }
            if fields.len() == 2 && fields[0].0 == String::from_str("role") && fields[1].0
                == String::from_str("content") {
                if let Json::Str(role) = &fields[0].1 {
                    if *role == String::from_str("developer") {
                        if let Ok(content) = content_from_json(&fields[1].1) {
                            return Ok(ChatCompletionRequestMessage::Developer { content });
                        }
                    } else if *role == String::from_str("system") {
                        if let Ok(content) = content_from_json(&fields[1].1) {
                            return Ok(ChatCompletionRequestMessage::System { content });
                        }
                    } else if *role == String::from_str("user") {
                        if let Ok(content) = user_content_from_json(&fields[1].1) {
                            return Ok(ChatCompletionRequestMessage::User { content });
                        }
                    } else if *role == String::from_str("assistant") {
                        if let Ok(content) = assistant_content_from_json(&fields[1].1) {
                            return Ok(ChatCompletionRequestMessage::Assistant { content });
                        }
                    }
                }
                Err(Error::Json(String::from_str("unrecognized chat message shape")))
            } else if fields.len() == 3 && fields[0].0 == String::from_str("role") && fields[1].0
                == String::from_str("content") && fields[2].0 == String::from_str("tool_call_id") {
                if let Json::Str(role) = &fields[0].1 {
                    if *role == String::from_str("tool") {
                        if let Json::Str(tool_call_id) = &fields[2].1 {
                            if let Ok(content) = content_from_json(&fields[1].1) {
                                return Ok(
                                    ChatCompletionRequestMessage::Tool {
                                        content,
                                        tool_call_id: tool_call_id.clone(),
                                    },
                                );
                            }
                        }
                    }
                }
                Err(Error::Json(String::from_str("unrecognized chat message shape")))
            } else {
                Err(Error::Json(String::from_str("unrecognized chat message shape")))
            }
        },
        _ => {
            proof {
                lemma_view_variants(*j);
            }
            Err(Error::Json(String::from_str("unrecognized chat message shape")))
        },
    }
}


/// The elements of an array document; empty for any other document.
pub open spec fn arr_items_of(j: JsonView) -> Seq<JsonView> {
    match j {
        JsonView::Arr(items) => items,
        _ => Seq::empty(),
    }
}

/// The value of a boolean document; false for any other document.
pub open spec fn bool_of(j: JsonView) -> bool {
    match j {
        JsonView::Bool(b) => b,
        _ => false,
    }
}

/// Reads a whole request back from its document, for requests without
/// tools and without a response format: model, messages, and the stream
/// flag where present.
pub open spec fn request_parse(j: JsonView) -> Option<ChatCompletionRequestView> {
    match j {
        JsonView::Obj(fields) => if 2 <= fields.len() <= 3 && fields[0].0 == "model"@
            && fields[0].1 is Str && fields[1].0 == "messages"@ && fields[1].1 is Arr && (
        forall|i: int| 0 <= i < arr_items_of(fields[1].1).len() ==> message_parse(
            #[trigger] arr_items_of(fields[1].1)[i],
        ) is Some) {
            let messages = Seq::new(
                arr_items_of(fields[1].1).len(),
                |i: int| message_parse(arr_items_of(fields[1].1)[i]).unwrap(),
            );
            if fields.len() == 2 {
                Some(
                    ChatCompletionRequestView {
                        model: str_of(fields[0].1),
                        messages,
                        stream: None,
                        tools: None,
                        response_format: None,
                    },
                )
            } else if fields[2].0 == "stream"@ && fields[2].1 is Bool {
                Some(
                    ChatCompletionRequestView {
                        model: str_of(fields[0].1),
                        messages,
                        stream: Some(bool_of(fields[2].1)),
                        tools: None,
                        response_format: None,
                    },
                )
            } else {
                None
            }
        } else {
            None
        },
        _ => None,
    }
}

/// Schema fidelity of the whole request: printing a request as its
/// document and reading the document back yields the same request, for
/// every model, message list and stream flag.  (A request carrying tools
/// or a response format embeds untyped schema documents; those members
/// are outside this law.)
pub proof fn lemma_request_round_trip(r: ChatCompletionRequestView)
    requires
        r.tools is None,
        r.response_format is None,
    ensures
        request_parse(request_rep(r)) == Some(r),
{
    let msg_docs = Seq::new(r.messages.len(), |i: int| message_rep(r.messages[i]));
    let base = seq![
        ("model"@, JsonView::Str(r.model)),
        ("messages"@, JsonView::Arr(msg_docs)),
    ];
    let fields = match r.stream {
        Some(b) => base + seq![("stream"@, JsonView::Bool(b))],
        None => base,
    };
    assert(request_rep(r) == JsonView::Obj(fields)) by {
        match r.stream {
            Some(b) => {
                assert(base + seq![("stream"@, JsonView::Bool(b))] + Seq::empty() + Seq::empty()
                    =~= fields);
            },
            None => {
                assert(base + Seq::empty() + Seq::empty() + Seq::empty() =~= fields);
            },
        }
    }
    assert forall|i: int| 0 <= i < msg_docs.len() implies message_parse(#[trigger] msg_docs[i])
        == Some(r.messages[i]) by {
        lemma_message_round_trip(r.messages[i]);
    }
    assert(Seq::new(msg_docs.len(), |i: int| message_parse(msg_docs[i]).unwrap()) =~= r.messages);
}


/// The message every unparseable request document reports.
pub open spec fn unrecognized_request_text() -> Seq<char> {
    "unrecognized chat request shape"@
}

/// Reads a whole request back from a document: exactly the shapes
/// [`request_rep`] emits for requests without tools and without a
/// response format, and an error with a fixed message for everything
/// else.
pub fn request_from_json(j: &Json) -> (r: Result<ChatCompletionRequest, Error>)
    ensures
        match request_parse(j@) {
            Some(rv) => r matches Ok(w) && w@ == rv,
            None => r matches Err(e) && (e matches Error::Json(t) && t@
                == unrecognized_request_text()),
        },
{
    match j {
        Json::Obj(fields) => {
            proof {
                lemma_view_json_fields(fields@);
            }
            if (fields.len() == 2 || fields.len() == 3) && fields[0].0 == String::from_str("model")
                && fields[1].0 == String::from_str("messages") {
                if let Json::Str(model) = &fields[0].1 {
                    if let Json::Arr(items) = &fields[1].1 {
                        let ghost views = view_json_vec(items@);
                        proof {
                            lemma_view_json_vec(items@);
                            assert(view_json(fields@[1].1) == JsonView::Arr(views));
                        }
                        let mut messages: Vec<ChatCompletionRequestMessage> = Vec::new();
                        let mut i: usize = 0;
                        while i < items.len()
                            invariant
                                i <= items@.len(),
                                views == view_json_vec(items@),
                                views.len() == items@.len(),
                                forall|k: int| 0 <= k < items@.len() ==> views[k] == view_json(
                                    #[trigger] items@[k],
                                ),
                                fields@.len() >= 2,
                                j@ == JsonView::Obj(view_json_fields(fields@)),
                                view_json_fields(fields@).len() == fields@.len(),
                                view_json_fields(fields@)[1].1 == JsonView::Arr(views),
                                messages@.len() == i,
                                forall|k: int| 0 <= k < i ==> message_parse(#[trigger] views[k])
                                    is Some,
                                forall|k: int| 0 <= k < i ==> messages@[k]@ == message_parse(
                                    #[trigger] views[k],
                                ).unwrap(),
                            decreases items@.len() - i,
                        {
                            match message_from_json(&items[i]) {
                                Ok(m) => {
                                    messages.push(m);
                                },
                                Err(_) => {
                                    proof {
                                        assert(message_parse(views[i as int]) is None);
                                    }
                                    return Err(
                                        Error::Json(
                                            String::from_str("unrecognized chat request shape"),
                                        ),
                                    );
                                },
                            }
                            i = i + 1;
                        }
                        let stream: Option<bool> = if fields.len() == 3 {
                            if fields[2].0 == String::from_str("stream") {
                                if let Json::Bool(b) = &fields[2].1 {
                                    Some(*b)
                                } else {
                                    return Err(
                                        Error::Json(
                                            String::from_str("unrecognized chat request shape"),
                                        ),
                                    );
                                }
                            } else {
                                return Err(
                                    Error::Json(
                                        String::from_str("unrecognized chat request shape"),
                                    ),
                                );
                            }
                        } else {
                            None
                        };
                        let w = ChatCompletionRequest {
                            model: model.clone(),
                            messages,
                            stream,
                            tools: None,
                            response_format: None,
                        };
                        proof {
                            assert(request_parse(j@) matches Some(rv) ==> w@ == rv) by {
                                if request_parse(j@) is Some {
                                    assert(Seq::new(
                                        views.len(),
                                        |k: int| message_parse(views[k]).unwrap(),
                                    ) =~= Seq::new(w.messages@.len(), |k: int| w.messages@[k]@));
                                }
                            };
                        }
                        return Ok(w);
                    }
                }
                Err(Error::Json(String::from_str("unrecognized chat request shape")))
            } else {
                Err(Error::Json(String::from_str("unrecognized chat request shape")))
            }
        },
        _ => {
            proof {
                lemma_view_variants(*j);
            }
            Err(Error::Json(String::from_str("unrecognized chat request shape")))
        },
    }
}

} // verus!
