use vstd::prelude::*;

use crate::nodes::connection::{Input, Output, RuntimeConnectable};
use crate::nodes::node::AnyHandle;
use crate::nodes::node::{Context, Node, State, UpdateError};

verus! {

/// A pass-through probe: forwards every value it receives from its input to
/// its output, so a graph can be tapped between two nodes.
#[verifier::reject_recursive_types(I)]
pub struct DebugNode<I> where I: Clone {
    name: String,
    _state: State<Option<I>>,
    _props: serde_json::Value,
    _context: State<Context>,

    pub input: Input<I>,
    pub output: Output<I>,
}

impl<I> DebugNode<I> where I: Clone {
    /// The node's own input can be read by the node.
    pub closed spec fn wf(&self) -> bool {
        self.input.is_consumer()
    }

    pub fn new(name: &str, context: State<Context>, props: serde_json::Value) -> (r: Self)
        ensures
            r.wf(),
    {
        Self {
            name: name.to_string(),
            _state: State::new(None),
            _props: props,
            _context: context,
            input: Input::new(),
            output: Output::new(None),
        }
    }
}

impl<I> Node for DebugNode<I> where I: Clone + Send + 'static {
    /// Moves at most one waiting value from the input to the output; a value
    /// that the output cannot take surfaces as an update error.
    fn on_update(&mut self) -> Result<(), UpdateError> {
        if self.input.can_receive() {
            match self.input.next() {
                Ok(v) => {
                    let mut output = self.output.clone();
                    match output.send(v) {
                        Ok(()) => {},
                        Err(_) => {
                            return Err(
                                UpdateError::SendError {
                                    message: "the output could not take the value".to_string(),
                                },
                            );
                        },
                    }
                },
                Err(_) => {},
            }
        }
        Ok(())
    }
}

impl<I> RuntimeConnectable for DebugNode<I> where I: Clone + Send + 'static {
    open spec fn n_inputs(&self) -> usize {
        1
    }

    open spec fn n_outputs(&self) -> usize {
        1
    }

    fn input_count(&self) -> usize {
        1
    }

    fn output_count(&self) -> usize {
        1
    }

    fn input_at(&self, index: usize) -> AnyHandle {
        AnyHandle::of(self.input.clone())
    }

    fn output_at(&self, index: usize) -> AnyHandle {
        AnyHandle::of(self.output.clone())
    }
}

} // verus!
