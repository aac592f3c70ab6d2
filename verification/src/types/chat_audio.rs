//! Audio output asked of the model.
use vstd::prelude::*;

verus! {

/// The voice the model answers with.
#[derive(Debug, Clone, Copy, PartialEq, Eq, Structural)]
pub enum ChatAudioVoice {
    Alloy,
    Ash,
    Ballad,
    Coral,
    Echo,
    Sage,
    Shimmer,
    Verse,
}

/// The format of the audio the model answers with.
#[derive(Debug, Clone, Copy, PartialEq, Eq, Structural)]
pub enum ChatAudioFormat {
    Wav,
    Mp3,
    Flac,
    Opus,
    Pcm16,
}

/// The audio output requested: a voice and a format.
#[derive(Debug, Clone, Copy, PartialEq, Eq, Structural)]
pub struct ChatAudio {
    pub voice: ChatAudioVoice,
    pub format: ChatAudioFormat,
}

} // verus!
