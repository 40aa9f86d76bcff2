use vstd::prelude::*;

use crate::nodes::connection::Edge;
use crate::nodes::job::{Context, Node, RuntimeConnectable};
use crate::nodes::node::AnyHandle;

verus! {

/// A value leaving a [`ToStringNode`] on one of its two outputs.
pub enum Out<O1, O2> {
    Out1(O1),
    Out2(O2),
}

/// A sink of the earliest node interface: consumes the values arriving on
/// its input, with two optional typed outputs for rendered text.
#[verifier::reject_recursive_types(I)]
#[verifier::reject_recursive_types(O1)]
#[verifier::reject_recursive_types(O2)]
pub struct ToStringNode<I, O1, O2> where I: Clone {
    name: String,
    state: Option<I>,
    props: I,
    context: std::sync::Arc<Context>,

    pub input: Edge<I>,
    pub output_1: Option<Edge<O1>>,
    pub output_2: Option<Edge<O2>>,
}

impl<I, O1, O2> ToStringNode<I, O1, O2> where I: Clone {
    /// The node's own input can be read by the node, and no output has been
    /// bound yet.
    pub closed spec fn wf(&self) -> bool {
        &&& self.input.is_consumer()
        &&& self.output_1 is None
        &&& self.output_2 is None
    }

    pub fn new(name: &str, context: std::sync::Arc<Context>, props: I) -> (r: Self)
        ensures
            r.wf(),
    {
        Self {
            name: name.to_string(),
            state: None,
            props,
            context,
            input: Edge::new(),
            output_1: None,
            output_2: None,
        }
    }
}

impl<I, O1, O2> Node for ToStringNode<I, O1, O2> where I: Clone {
    type Output = Out<O1, O2>;

    fn name(&self) -> &str {
        self.name.as_str()
    }

    fn on_init(&mut self) {
    }

    fn on_ready(&mut self) {
    }

    fn on_shutdown(&mut self) {
    }

    /// Consumes at most one waiting value from the input.
    fn update(&mut self) {
        if self.input.can_receive() {
            let _ = self.input.next();
        }
    }

    /// This sink renders into its two typed outputs and has no place for a
    /// combined edge, which is therefore dropped.
    fn connect(&mut self, edge: Edge<Self::Output>) {
        let _ = edge;
    }
}

impl<I, O1, O2> RuntimeConnectable for ToStringNode<I, O1, O2> where
    I: Clone + 'static,
    O1: Clone + 'static,
    O2: Clone + 'static,
 {
    open spec fn n_inputs(&self) -> usize {
        1
    }

    open spec fn n_outputs(&self) -> usize {
        2
    }

    fn input_at(&self, index: usize) -> AnyHandle {
        AnyHandle::of(self.input.clone())
    }

    fn output_at(&self, index: usize) -> AnyHandle {
        if index == 0 {
            AnyHandle::of(self.output_1.clone())
        } else {
            AnyHandle::of(self.output_2.clone())
        }
    }
}

} // verus!
