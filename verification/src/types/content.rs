//! Plain textual content: one string, or several.
use vstd::prelude::*;

verus! {

/// The mathematical content of a [`Content`].
pub enum ContentView {
    Text(Seq<char>),
    Array(Seq<Seq<char>>),
}

/// One text, or an array of texts.
#[derive(Debug, Clone, PartialEq)]
pub enum Content {
    Text(String),
    Array(Vec<String>),
}

impl View for Content {
    type V = ContentView;

    open spec fn view(&self) -> ContentView {
        match self {
            Content::Text(s) => ContentView::Text(s@),
            Content::Array(items) => ContentView::Array(
                Seq::new(items@.len(), |i: int| items@[i]@),
            ),
        }
    }
}

impl Content {
    /// Content holding one text.
    pub fn text(s: &str) -> (r: Self)
        ensures
            r@ == ContentView::Text(s@),
    {
        Content::Text(s.to_owned())
    }
}

impl Default for Content {
    fn default() -> (r: Self)
        ensures
            r@ == ContentView::Text(Seq::<char>::empty()),
    {
        Content::Text(String::new())
    }
}

} // verus!
