//! What a user message carries: one text, or an array of typed parts.
use vstd::prelude::*;

use super::image_url::{ImageUrl, ImageUrlView};
use super::input_audio::{InputAudio, InputAudioView};

verus! {

/// The mathematical content of a [`UserContentPart`].
pub enum UserContentPartView {
    Text { text: Seq<char> },
    ImageUrl { image_url: ImageUrlView },
    Audio { input_audio: InputAudioView },
}

/// One typed part of a user message: text, an image, or audio.
#[derive(Debug, PartialEq)]
pub enum UserContentPart {
    Text { text: String },
    ImageUrl { image_url: ImageUrl },
    Audio { input_audio: InputAudio },
}

impl View for UserContentPart {
    type V = UserContentPartView;

    open spec fn view(&self) -> UserContentPartView {
        match self {
            UserContentPart::Text { text } => UserContentPartView::Text { text: text@ },
            UserContentPart::ImageUrl { image_url } => UserContentPartView::ImageUrl {
                image_url: image_url@,
            },
            UserContentPart::Audio { input_audio } => UserContentPartView::Audio {
                input_audio: input_audio@,
            },
        }
    }
}

impl Clone for UserContentPart {
    fn clone(&self) -> (r: Self)
        ensures
            r@ == self@,
    {
        match self {
            UserContentPart::Text { text } => UserContentPart::Text { text: text.clone() },
            UserContentPart::ImageUrl { image_url } => UserContentPart::ImageUrl {
                image_url: image_url.clone(),
            },
            UserContentPart::Audio { input_audio } => UserContentPart::Audio {
                input_audio: input_audio.clone(),
            },
        }
    }
}

impl UserContentPart {
    /// An image part.
    pub fn image(image_url: ImageUrl) -> (r: Self)
        ensures
            r@ == (UserContentPartView::ImageUrl { image_url: image_url@ }),
    {
        UserContentPart::ImageUrl { image_url }
    }

    /// A text part.
    pub fn text(text: &str) -> (r: Self)
        ensures
            r@ == (UserContentPartView::Text { text: text@ }),
    {
        UserContentPart::Text { text: text.to_owned() }
    }
}

/// The mathematical content of a [`UserContent`].
pub enum UserContentView {
    Text(Seq<char>),
    Array(Seq<UserContentPartView>),
}

/// What a user message carries.
#[derive(Debug, PartialEq)]
pub enum UserContent {
    Text(String),
    Array(Vec<UserContentPart>),
}

impl View for UserContent {
    type V = UserContentView;

    open spec fn view(&self) -> UserContentView {
        match self {
            UserContent::Text(s) => UserContentView::Text(s@),
            UserContent::Array(parts) => UserContentView::Array(
                Seq::new(parts@.len(), |i: int| parts@[i]@),
            ),
        }
    }
}

impl Clone for UserContent {
    fn clone(&self) -> (r: Self)
        ensures
            r@ == self@,
    {
        match self {
            UserContent::Text(s) => UserContent::Text(s.clone()),
            UserContent::Array(parts) => {
                let mut copy: Vec<UserContentPart> = Vec::new();
                let mut i: usize = 0;
                while i < parts.len()
                    invariant
                        i <= parts@.len(),
                        copy@.len() == i,
                        forall|k: int| 0 <= k < i ==> copy@[k]@ == parts@[k]@,
                    decreases parts@.len() - i,
                {
                    copy.push(parts[i].clone());
                    i = i + 1;
                }
                let r = UserContent::Array(copy);
                proof {
                    assert(r@ matches UserContentView::Array(a) && self@
                        matches UserContentView::Array(b) ==> a =~= b);
                }
                r
            },
        }
    }
}

impl Default for UserContent {
    fn default() -> (r: Self)
        ensures
            r@ == UserContentView::Text(Seq::<char>::empty()),
    {
        UserContent::Text(String::new())
    }
}

} // verus!
