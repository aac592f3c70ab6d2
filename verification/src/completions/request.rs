//! The request of the plain completions endpoint.
use vstd::prelude::*;

use crate::wire::{view_json_fields, Json, JsonView};
use crate::wire::lemma_view_json_fields;

verus! {

/// The mathematical content of a [`CompletionRequest`].
pub struct CompletionRequestView {
    pub model: Seq<char>,
    pub prompt: Seq<char>,
}

/// A plain text-completion request: the model and the prompt.
#[derive(Debug, Clone, PartialEq)]
pub struct CompletionRequest {
    pub model: String,
    pub prompt: String,
}

impl View for CompletionRequest {
    type V = CompletionRequestView;

    open spec fn view(&self) -> CompletionRequestView {
        CompletionRequestView { model: self.model@, prompt: self.prompt@ }
    }
}

impl CompletionRequest {
    /// A request for the given model and prompt.
    pub fn new(model: &str, prompt: &str) -> (r: Self)
        ensures
            r@.model == model@,
            r@.prompt == prompt@,
    {
        CompletionRequest { model: model.to_owned(), prompt: prompt.to_owned() }
    }
}

/// The document for a completion request.
pub open spec fn completion_rep(r: CompletionRequestView) -> JsonView {
    JsonView::Obj(
        seq![("model"@, JsonView::Str(r.model)), ("prompt"@, JsonView::Str(r.prompt))],
    )
}

/// Builds [`completion_rep`].
pub fn completion_to_json(r: &CompletionRequest) -> (res: Json)
    ensures
        res@ == completion_rep(r@),
{
    let mut fields: Vec<(String, Json)> = Vec::new();
    fields.push((String::from_str("model"), Json::Str(r.model.clone())));
    fields.push((String::from_str("prompt"), Json::Str(r.prompt.clone())));
    let ghost expected = Seq::new(fields@.len(), |i: int| (fields@[i].0@, fields@[i].1@));
    let res = Json::Obj(fields);
    proof {
        lemma_view_json_fields(fields@);
        assert(view_json_fields(fields@) =~= expected);
        assert(res@ matches JsonView::Obj(fs) ==> fs =~= seq![
            ("model"@, JsonView::Str(r@.model)),
            ("prompt"@, JsonView::Str(r@.prompt)),
        ]);
    }
    res
}

} // verus!
