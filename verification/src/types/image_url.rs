//! An image handed to the model by URL or as encoded data.
use vstd::prelude::*;

verus! {

/// The detail level asked of the model when it reads the image.
#[derive(Debug, Clone, Copy, PartialEq, Eq, Structural)]
pub enum ImageDetail {
    Auto,
    Low,
    High,
}

impl Default for ImageDetail {
    fn default() -> (r: Self)
        ensures
            r == ImageDetail::Auto,
    {
        ImageDetail::Auto
    }
}

/// The mathematical content of an [`ImageUrl`].
pub struct ImageUrlView {
    pub url: Seq<char>,
    pub detail: Option<ImageDetail>,
}

/// Either a URL of the image or the base64 encoded image data, with an
/// optional detail level.
#[derive(Debug, PartialEq)]
pub struct ImageUrl {
    pub url: String,
    pub detail: Option<ImageDetail>,
}

impl View for ImageUrl {
    type V = ImageUrlView;

    open spec fn view(&self) -> ImageUrlView {
        ImageUrlView { url: self.url@, detail: self.detail }
    }
}

impl Clone for ImageUrl {
    fn clone(&self) -> (r: Self)
        ensures
            r@ == self@,
    {
        ImageUrl { url: self.url.clone(), detail: self.detail }
    }
}

impl ImageUrl {
    /// An image reference with no detail level set.
    pub fn new(url: &str) -> (r: Self)
        ensures
            r@.url == url@,
            r@.detail is None,
    {
        ImageUrl { url: url.to_owned(), detail: None }
    }
}

impl Default for ImageUrl {
    fn default() -> (r: Self)
        ensures
            r@.url.len() == 0,
            r@.detail is None,
    {
        ImageUrl { url: String::new(), detail: None }
    }
}

} // verus!
