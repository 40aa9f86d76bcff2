use vstd::prelude::*;

use crate::nodes::job::Context;

verus! {

/// A source that replays a held sequence of values; freshly built it holds
/// nothing.
#[verifier::reject_recursive_types(I)]
pub struct RepeatNode<I> where I: Clone {
    _context: std::sync::Arc<Context>,
    name: String,
    pub state: Option<I>,
}

impl<I> RepeatNode<I> where I: Clone {
    /// Whether a sequence is currently held.
    pub closed spec fn holds_sequence(&self) -> bool {
        self.state is Some
    }

    pub fn new(name: &str, context: std::sync::Arc<Context>) -> (r: Self)
        ensures
            !r.holds_sequence(),
    {
        Self { state: None, name: name.to_string(), _context: context }
    }
}

} // verus!
