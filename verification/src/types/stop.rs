//! Stop sequences: one, or up to a few.
use vstd::prelude::*;

verus! {

/// One stop string, or an array of them.
#[derive(Debug, Clone, PartialEq)]
pub enum Stop {
    String(String),
    StringArray(Vec<String>),
}

impl Stop {
    /// A single stop string.
    pub fn text(s: &str) -> (r: Self)
        ensures
            r matches Stop::String(t) && t@ == s@,
    {
        Stop::String(s.to_owned())
    }
}

impl Default for Stop {
    fn default() -> (r: Self)
        ensures
            r matches Stop::String(t) && t@.len() == 0,
    {
        Stop::String(String::new())
    }
}

} // verus!
