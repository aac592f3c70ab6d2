//! Options that shape a streamed call.
use vstd::prelude::*;

verus! {

/// Options for a streamed call: whether a final usage chunk is sent.
#[derive(Debug, Clone, PartialEq)]
pub struct StreamOptions {
    pub include_usage: Option<bool>,
}

} // verus!
