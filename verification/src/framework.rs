use vstd::prelude::*;
use std::any::TypeId;
use crate::error::Error;
use crate::state::Erased;
use crate::state::State;

verus! {

/// The framework: the shared state that plugins fill and read.
pub struct Framework {
    pub state: State,
}

impl Framework {
    /// A framework with an empty state.
    pub fn new() -> (fw: Framework)
        ensures fw.state@ == Map::<TypeId, Erased>::empty(),
    {
        Framework { state: State::new() }
    }
}

} // verus!
