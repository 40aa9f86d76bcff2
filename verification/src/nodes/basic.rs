use vstd::prelude::*;

use crate::nodes::connection::{message_error, Output, RuntimeConnectable};
use crate::nodes::node::AnyHandle;
use crate::nodes::node::{Context, Node, ReadyError, State, UpdateError};

verus! {

/// A source: holds one configured value and emits it, once, when the flow
/// becomes ready.
#[verifier::reject_recursive_types(I)]
pub struct BasicNode<I> where I: Clone {
    name: String,
    _state: State<Option<I>>,
    props: I,
    _context: State<Context>,

    pub output: Output<I>,
}

impl<I> BasicNode<I> where I: Clone {
    /// The configured value this source emits.
    pub closed spec fn value(&self) -> I {
        self.props
    }

    pub fn new(name: &str, context: State<Context>, props: I) -> (r: Self)
        ensures
            r.value() == props,
    {
        Self {
            name: name.to_string(),
            _state: State::new(None),
            props,
            _context: context,
            output: Output::new(None),
        }
    }
}

impl<I> Node for BasicNode<I> where I: Clone + Send + 'static {
    /// Emits the configured value into the output; a source whose output
    /// cannot take the value reports a ready error.
    fn on_ready(&self) -> Result<(), ReadyError> {
        let mut output = self.output.clone();
        match output.send(self.props.clone()) {
            Ok(()) => Ok(()),
            Err(_) => Err(ReadyError::Other(message_error("failed to emit the source value"))),
        }
    }
}

impl<I> RuntimeConnectable for BasicNode<I> where I: Clone + Send + 'static {
    open spec fn n_inputs(&self) -> usize {
        0
    }

    open spec fn n_outputs(&self) -> usize {
        1
    }

    fn input_count(&self) -> usize {
        0
    }

    fn output_count(&self) -> usize {
        1
    }

    fn input_at(&self, index: usize) -> AnyHandle {
        // A source exposes no inputs, so no index satisfies the bound above.
        vstd::pervasive::unreached()
    }

    fn output_at(&self, index: usize) -> AnyHandle {
        AnyHandle::of(self.output.clone())
    }
}

} // verus!
