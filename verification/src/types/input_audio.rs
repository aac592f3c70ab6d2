//! Audio handed to the model as encoded data.
use vstd::prelude::*;

verus! {

/// The format of the encoded audio data.
#[derive(Debug, Clone, Copy, PartialEq, Eq, Structural)]
pub enum InputAudioFormat {
    Wav,
    Mp3,
}

impl Default for InputAudioFormat {
    fn default() -> (r: Self)
        ensures
            r == InputAudioFormat::Mp3,
    {
        InputAudioFormat::Mp3
    }
}

/// The mathematical content of an [`InputAudio`].
pub struct InputAudioView {
    pub data: Seq<char>,
    pub format: InputAudioFormat,
}

/// Base64 encoded audio data together with its format.
#[derive(Debug, PartialEq)]
pub struct InputAudio {
    pub data: String,
    pub format: InputAudioFormat,
}

impl View for InputAudio {
    type V = InputAudioView;

    open spec fn view(&self) -> InputAudioView {
        InputAudioView { data: self.data@, format: self.format }
    }
}

impl Clone for InputAudio {
    fn clone(&self) -> (r: Self)
        ensures
            r@ == self@,
    {
        InputAudio { data: self.data.clone(), format: self.format }
    }
}

} // verus!
