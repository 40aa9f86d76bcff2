use vstd::prelude::*;

use crate::nodes::connection::Edge;
use crate::nodes::node::AnyHandle;

verus! {

/// The shared context of the earliest node interface.
pub struct Context {
}

/// Indexed, type-erased access to a node's endpoints, in the earliest shape
/// of the interface.
pub trait RuntimeConnectable {
    /// How many inputs this node exposes.
    spec fn n_inputs(&self) -> usize;

    /// How many outputs this node exposes.
    spec fn n_outputs(&self) -> usize;

    fn input_at(&self, index: usize) -> AnyHandle
        requires
            index < self.n_inputs(),
    ;

    fn output_at(&self, index: usize) -> AnyHandle
        requires
            index < self.n_outputs(),
    ;
}

/// The earliest node interface: lifecycle hooks, an update step, and a typed
/// output connection.
pub trait Node {
    type Output;

    fn name(&self) -> &str;

    fn on_init(&mut self);

    fn on_ready(&mut self);

    fn on_shutdown(&mut self);

    fn update(&mut self);

    fn connect(&mut self, edge: Edge<Self::Output>);
}

} // verus!
