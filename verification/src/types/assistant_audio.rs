//! A reference to a previous audio answer.
use vstd::prelude::*;

verus! {

/// The identifier of a previous audio answer from the model.
#[derive(Debug, Clone, PartialEq)]
pub struct AssistantAudio {
    pub id: String,
}

impl Default for AssistantAudio {
    fn default() -> (r: Self)
        ensures
            r.id@.len() == 0,
    {
        AssistantAudio { id: String::new() }
    }
}

} // verus!
