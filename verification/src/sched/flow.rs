use vstd::prelude::*;

use crate::flow::version::Version;
use crate::nodes::connection::{
    node_on_init, node_on_ready, node_on_shutdown, node_update_controller, share_node,
    RuntimeNode, SharedNode,
};
use crate::nodes::node::{InitError, ReadyError, ShutdownError, UpdateController};
use crate::nodes::node_description::NodeDescription;

verus! {

/// A lifecycle hook failed; the error names the node by its recorded
/// description together with the inner cause.
#[derive(Debug)]
pub enum FlowError {
    InitFailed { node_name: String, source: InitError },
    ReadyFailed { node_name: String, source: ReadyError },
    ShutdownFailed { node_name: String, source: ShutdownError },
}

impl FlowError {
    /// The recorded name of the node whose hook failed.
    pub open spec fn spec_node_name(&self) -> Seq<char> {
        match *self {
            FlowError::InitFailed { ref node_name, .. } => node_name@,
            FlowError::ReadyFailed { ref node_name, .. } => node_name@,
            FlowError::ShutdownFailed { ref node_name, .. } => node_name@,
        }
    }
}

/// An owning container of nodes keyed by a caller-chosen id type: an
/// insertion-ordered sequence of `(description, node)` pairs with an
/// id-to-index mapping for lookup.
#[verifier::reject_recursive_types(T)]
pub struct Flow<T> where T: core::hash::Hash {
    name: String,
    version: Version,
    nodes: Vec<(NodeDescription, SharedNode)>,
    id_to_node_idx: std::collections::HashMap<T, usize>,
}

impl<T> Flow<T> where T: core::hash::Hash + Eq {
    /// The `(description, node)` pairs in insertion order.
    pub closed spec fn node_seq(&self) -> Seq<(NodeDescription, SharedNode)> {
        self.nodes@
    }

    /// The pair at position `i` is one of the given map's entries.
    pub open spec fn stored_from(
        &self,
        nodes: Map<T, (NodeDescription, SharedNode)>,
        i: int,
    ) -> bool {
        exists|k: T| #[trigger] nodes.contains_key(k) && nodes[k] == self.node_seq()[i]
    }

    /// A stored name: the name of one of the stored descriptions.
    pub open spec fn has_node_named(&self, name: Seq<char>) -> bool {
        exists|i: int| 0 <= i < self.node_seq().len() && (#[trigger] self.node_seq()[i]).0.name@
            == name
    }

    pub fn new_empty(name: &str, v: Version) -> (r: Self)
        ensures
            r.node_seq().len() == 0,
    {
        Self {
            name: name.to_string(),
            version: v,
            nodes: Vec::new(),
            id_to_node_idx: std::collections::HashMap::new(),
        }
    }

    pub fn new(
        name: &str,
        v: Version,
        nodes: std::collections::HashMap<T, (NodeDescription, SharedNode)>,
    ) -> (r: Self)
        ensures
            r.node_seq().len() == nodes@.dom().len(),
            forall|i: int| 0 <= i < r.node_seq().len() ==> r.stored_from(nodes@, i),
    {
        let mut obj = Self::new_empty(name, v);
        let mut entries = crate::sync::map_entries(nodes);
        let ghost entries_view = entries@;
        while entries.len() > 0
            invariant
                entries_view.len() == nodes@.dom().len(),
                obj.node_seq().len() + entries@.len() == entries_view.len(),
                entries@ == entries_view.skip(obj.node_seq().len() as int),
                forall|i: int|
                    0 <= i < entries_view.len() ==> #[trigger] nodes@.contains_key(
                        entries_view[i].0,
                    ) && nodes@[entries_view[i].0] == entries_view[i].1,
                forall|i: int|
                    0 <= i < obj.node_seq().len() ==> (#[trigger] obj.node_seq()[i])
                        == entries_view[i].1,
            decreases entries@.len(),
        {
            let ghost done = obj.node_seq().len() as int;
            proof {
                assert(entries_view.skip(done)[0] == entries_view[done]);
                assert(entries_view.skip(done).skip(1) =~= entries_view.skip(done + 1));
            }
            let (id, pair) = entries.remove(0);
            let node_idx = obj.nodes.len();
            obj.nodes.push(pair);
            obj.id_to_node_idx.insert(id, node_idx);
        }
        proof {
            assert forall|i: int| 0 <= i < obj.node_seq().len() implies obj.stored_from(
                nodes@,
                i,
            ) by {
                assert(nodes@.contains_key(entries_view[i].0) && nodes@[entries_view[i].0]
                    == obj.node_seq()[i]);
            }
        }
        obj
    }

    /// Stores the node under the given id with an empty description.
    pub fn add_node<U: RuntimeNode + 'static>(&mut self, node: U, id: T)
        ensures
            final(self).node_seq().len() == old(self).node_seq().len() + 1,
    {
        self.add_node_with_desc(node, id, NodeDescription::default());
    }

    /// Appends the node with its description and records the id as pointing
    /// at it.  (An id given twice keeps pointing at its latest node.)
    pub fn add_node_with_desc<U: RuntimeNode + 'static>(
        &mut self,
        node: U,
        id: T,
        desc: NodeDescription,
    )
        ensures
            final(self).node_seq().len() == old(self).node_seq().len() + 1,
            final(self).node_seq().take(old(self).node_seq().len() as int) == old(
                self,
            ).node_seq(),
            final(self).node_seq()[old(self).node_seq().len() as int].0 == desc,
    {
        proof {
            assert(old(self).node_seq().take(old(self).node_seq().len() as int) =~= old(
                self,
            ).node_seq());
        }
        self.nodes.push((desc, share_node(node)));
        let idx = self.nodes.len() - 1;
        self.id_to_node_idx.insert(id, idx);
        proof {
            assert(final(self).node_seq().take(old(self).node_seq().len() as int) =~= old(
                self,
            ).node_seq());
        }
    }

    pub fn node_by_index(&self, index: usize) -> (r: Option<&(NodeDescription, SharedNode)>)
        ensures
            match r {
                Some(p) => index < self.node_seq().len() && *p == self.node_seq()[index as int],
                None => index >= self.node_seq().len(),
            },
    {
        if index < self.nodes.len() {
            Some(&self.nodes[index])
        } else {
            None
        }
    }

    /// The `(description, node)` pair the id points at, if the id is known
    /// and its recorded index still is in range.
    pub fn node_by_id(&self, id: &T) -> (r: Option<&(NodeDescription, SharedNode)>)
        ensures
            r matches Some(p) ==> self.node_seq().contains(*p),
    {
        match self.id_to_node_idx.get(id) {
            Some(idx) => {
                let r = self.node_by_index(*idx);
                proof {
                    match r {
                        Some(p) => {
                            assert(self.node_seq()[*idx as int] == *p);
                        },
                        None => {},
                    }
                }
                r
            },
            None => None,
        }
    }

    pub fn num_nodes(&self) -> (r: usize)
        ensures
            r == self.node_seq().len(),
    {
        self.nodes.len()
    }

    /// Invokes `on_init` on every node in insertion order; stops at the
    /// first failing hook and reports it with the node's recorded name.
    pub fn init_all(&self) -> (r: Result<(), FlowError>)
        ensures
            self.node_seq().len() == 0 ==> r is Ok,
            r matches Err(e) ==> e matches FlowError::InitFailed { .. }
                && self.has_node_named(e.spec_node_name()),
    {
        let n = self.nodes.len();
        let mut i: usize = 0;
        while i < n
            invariant
                n == self.node_seq().len(),
                i <= n,
            decreases n - i,
        {
            let pair = &self.nodes[i];
            match node_on_init(&pair.1) {
                Ok(()) => {},
                Err(e) => {
                    return Err(
                        FlowError::InitFailed { node_name: pair.0.name.clone(), source: e },
                    );
                },
            }
            i = i + 1;
        }
        Ok(())
    }

    /// Invokes `on_shutdown` on every node in insertion order; stops at the
    /// first failing hook and reports it with the node's recorded name.
    pub fn shutdown_all(&self) -> (r: Result<(), FlowError>)
        ensures
            self.node_seq().len() == 0 ==> r is Ok,
            r matches Err(e) ==> e matches FlowError::ShutdownFailed { .. }
                && self.has_node_named(e.spec_node_name()),
    {
        let n = self.nodes.len();
        let mut i: usize = 0;
        while i < n
            invariant
                n == self.node_seq().len(),
                i <= n,
            decreases n - i,
        {
            let pair = &self.nodes[i];
            match node_on_shutdown(&pair.1) {
                Ok(()) => {},
                Err(e) => {
                    return Err(
                        FlowError::ShutdownFailed { node_name: pair.0.name.clone(), source: e },
                    );
                },
            }
            i = i + 1;
        }
        Ok(())
    }

    /// Invokes `on_ready` on every node in insertion order; stops at the
    /// first failing hook and reports it with the node's recorded name.
    pub fn ready_all(&self) -> (r: Result<(), FlowError>)
        ensures
            self.node_seq().len() == 0 ==> r is Ok,
            r matches Err(e) ==> e matches FlowError::ReadyFailed { .. }
                && self.has_node_named(e.spec_node_name()),
    {
        let n = self.nodes.len();
        let mut i: usize = 0;
        while i < n
            invariant
                n == self.node_seq().len(),
                i <= n,
            decreases n - i,
        {
            let pair = &self.nodes[i];
            match node_on_ready(&pair.1) {
                Ok(()) => {},
                Err(e) => {
                    return Err(
                        FlowError::ReadyFailed { node_name: pair.0.name.clone(), source: e },
                    );
                },
            }
            i = i + 1;
        }
        Ok(())
    }

    /// Collects the update controllers of the nodes that expose one, in
    /// insertion order.
    pub fn get_update_controllers(&self) -> (r: Vec<
        std::sync::Arc<std::sync::Mutex<Box<dyn UpdateController>>>,
    >)
        ensures
            r@.len() <= self.node_seq().len(),
    {
        let mut update_controllers: Vec<
            std::sync::Arc<std::sync::Mutex<Box<dyn UpdateController>>>,
        > = Vec::new();
        let n = self.nodes.len();
        let mut i: usize = 0;
        while i < n
            invariant
                n == self.node_seq().len(),
                i <= n,
                update_controllers@.len() <= i,
            decreases n - i,
        {
            match node_update_controller(&self.nodes[i].1) {
                Some(us) => {
                    update_controllers.push(us);
                },
                None => {},
            }
            i = i + 1;
        }
        update_controllers
    }
}

} // verus!
