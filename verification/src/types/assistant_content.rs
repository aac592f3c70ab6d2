//! What an assistant message carries: one text, or typed parts.
use vstd::prelude::*;

verus! {

/// The mathematical content of an [`AssistantContentPart`].
pub enum AssistantContentPartView {
    Text(Seq<char>),
    Refusal { refusal: Seq<char> },
}

/// One typed part of an assistant message.
#[derive(Debug, Clone, PartialEq)]
pub enum AssistantContentPart {
    Text(String),
    Refusal { refusal: String },
}

impl View for AssistantContentPart {
    type V = AssistantContentPartView;

    open spec fn view(&self) -> AssistantContentPartView {
        match self {
            AssistantContentPart::Text(s) => AssistantContentPartView::Text(s@),
            AssistantContentPart::Refusal { refusal } => AssistantContentPartView::Refusal {
                refusal: refusal@,
            },
        }
    }
}

/// The mathematical content of an [`AssistantContent`].
pub enum AssistantContentView {
    Text(Seq<char>),
    Array(Seq<AssistantContentPartView>),
}

/// What an assistant message carries.
#[derive(Debug, Clone, PartialEq)]
pub enum AssistantContent {
    Text(String),
    Array(Vec<AssistantContentPart>),
}

impl View for AssistantContent {
    type V = AssistantContentView;

    open spec fn view(&self) -> AssistantContentView {
        match self {
            AssistantContent::Text(s) => AssistantContentView::Text(s@),
            AssistantContent::Array(parts) => AssistantContentView::Array(
                Seq::new(parts@.len(), |i: int| parts@[i]@),
            ),
        }
    }
}

impl Default for AssistantContent {
    fn default() -> (r: Self)
        ensures
            r@ == AssistantContentView::Text(Seq::<char>::empty()),
    {
        AssistantContent::Text(String::new())
    }
}

} // verus!
