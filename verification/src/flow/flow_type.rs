use vstd::prelude::*;

use crate::flow::version::Version;
use crate::nodes::connection::{
    node_on_init, node_on_ready, node_on_shutdown, share_node, RuntimeNode, SharedNode,
};
use crate::sync::share;

verus! {

/// The earliest shape of the node container: an insertion-ordered sequence
/// of shared nodes, without ids or descriptions.
pub struct Flow {
    name: String,
    version: Version,
    nodes: Vec<SharedNode>,
}

impl Flow {
    /// The shared nodes in insertion order.
    pub closed spec fn node_seq(&self) -> Seq<SharedNode> {
        self.nodes@
    }

    pub fn new(name: &str, v: Version) -> (r: Self)
        ensures
            r.node_seq().len() == 0,
    {
        Self { name: name.to_string(), version: v, nodes: Vec::new() }
    }

    /// Appends the node.
    pub fn add_node<T: RuntimeNode + 'static>(&mut self, node: T)
        ensures
            final(self).node_seq().len() == old(self).node_seq().len() + 1,
            final(self).node_seq().take(old(self).node_seq().len() as int) == old(
                self,
            ).node_seq(),
    {
        proof {
            assert(old(self).node_seq().take(old(self).node_seq().len() as int) =~= old(
                self,
            ).node_seq());
        }
        self.nodes.push(share_node(node));
        proof {
            assert(final(self).node_seq().take(old(self).node_seq().len() as int) =~= old(
                self,
            ).node_seq());
        }
    }

    /// A shared handle on the node at the index, if the index is in range.
    pub fn get_node(&self, idx: usize) -> (r: Option<SharedNode>)
        ensures
            match r {
                Some(n) => idx < self.node_seq().len() && n == self.node_seq()[idx as int],
                None => idx >= self.node_seq().len(),
            },
    {
        if idx < self.nodes.len() {
            Some(share(&self.nodes[idx]))
        } else {
            None
        }
    }

    pub fn num_nodes(&self) -> (r: usize)
        ensures
            r == self.node_seq().len(),
    {
        self.nodes.len()
    }

    /// Invokes `on_init` on every node in insertion order; in this early
    /// shape hook results are not reported.
    pub fn init_all(&self) {
        let n = self.nodes.len();
        let mut i: usize = 0;
        while i < n
            invariant
                n == self.node_seq().len(),
                i <= n,
            decreases n - i,
        {
            let _ = node_on_init(&self.nodes[i]);
            i = i + 1;
        }
    }

    /// Invokes `on_shutdown` on every node in insertion order.
    pub fn shutdown_all(&self) {
        let n = self.nodes.len();
        let mut i: usize = 0;
        while i < n
            invariant
                n == self.node_seq().len(),
                i <= n,
            decreases n - i,
        {
            let _ = node_on_shutdown(&self.nodes[i]);
            i = i + 1;
        }
    }

    /// Invokes `on_ready` on every node in insertion order.
    pub fn ready_all(&self) {
        let n = self.nodes.len();
        let mut i: usize = 0;
        while i < n
            invariant
                n == self.node_seq().len(),
                i <= n,
            decreases n - i,
        {
            let _ = node_on_ready(&self.nodes[i]);
            i = i + 1;
        }
    }
}

} // verus!
