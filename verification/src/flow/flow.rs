use vstd::prelude::*;

use crate::flow::version::Version;
use crate::nodes::connection::{
    node_on_init, node_on_ready, node_on_shutdown, node_update_controller, share_node,
    RuntimeNode, SharedNode,
};
use crate::nodes::node::{InitError, ReadyError, ShutdownError, UpdateController};
use crate::nodes::node_description::NodeDescription;

verus! {

broadcast use vstd::std_specs::hash::group_hash_axioms;

/// Stable identifier of a node within a [`Flow`].
pub type NodeId = u128;

/// A lifecycle hook failed; the error carries the id of the node whose hook
/// failed together with the inner cause.
#[derive(Debug)]
pub enum FlowError {
    InitFailed { node_id: NodeId, source: InitError },
    ReadyFailed { node_id: NodeId, source: ReadyError },
    ShutdownFailed { node_id: NodeId, source: ShutdownError },
}

impl FlowError {
    /// The id of the node whose hook failed.
    pub open spec fn spec_node_id(&self) -> NodeId {
        match *self {
            FlowError::InitFailed { node_id, .. } => node_id,
            FlowError::ReadyFailed { node_id, .. } => node_id,
            FlowError::ShutdownFailed { node_id, .. } => node_id,
        }
    }

    pub fn node_id(&self) -> (r: NodeId)
        ensures
            r == self.spec_node_id(),
    {
        match *self {
            FlowError::InitFailed { node_id, .. } => node_id,
            FlowError::ReadyFailed { node_id, .. } => node_id,
            FlowError::ShutdownFailed { node_id, .. } => node_id,
        }
    }
}

/// The owning container of nodes: an insertion-ordered sequence of
/// `(id, node)` pairs, an id-to-index mapping for lookup, and an
/// id-to-description mapping for error reports.
pub struct Flow {
    name: String,
    version: Version,
    nodes: Vec<(NodeId, SharedNode)>,
    id_to_node_idx: std::collections::HashMap<NodeId, usize>,
    id_to_desc: std::collections::HashMap<NodeId, NodeDescription>,
    id_counter: NodeId,
}

impl Flow {
    /// The `(id, node)` pairs in insertion order.
    pub closed spec fn node_seq(&self) -> Seq<(NodeId, SharedNode)> {
        self.nodes@
    }

    /// The node ids in insertion order.
    pub open spec fn ids(&self) -> Seq<NodeId> {
        self.node_seq().map_values(|p: (NodeId, SharedNode)| p.0)
    }

    pub open spec fn contains_id(&self, id: NodeId) -> bool {
        self.ids().contains(id)
    }

    /// The recorded descriptions, keyed by node id.
    pub closed spec fn descs(&self) -> Map<NodeId, NodeDescription> {
        self.id_to_desc@
    }

    /// The id allocation cursor: the id most recently allocated by
    /// [`Flow::add_node`] (0 before the first allocation).
    pub closed spec fn id_cursor(&self) -> NodeId {
        self.id_counter
    }

    /// Bookkeeping invariant: the id-to-index map points every stored id at
    /// its position in the node sequence, and covers exactly those ids.  In
    /// particular two distinct positions never carry the same id.
    pub closed spec fn wf(&self) -> bool {
        &&& forall|id: NodeId|
            self.id_to_node_idx@.contains_key(id) <==> #[trigger] self.ids().contains(id)
        &&& forall|i: int|
            0 <= i < self.node_seq().len() ==> self.id_to_node_idx@.contains_key(
                (#[trigger] self.node_seq()[i]).0,
            ) && self.id_to_node_idx@[self.node_seq()[i].0] == i
    }

    /// In a well-formed flow, distinct positions carry distinct ids.
    pub proof fn lemma_wf_ids_distinct(&self, i: int, j: int)
        requires
            self.wf(),
            0 <= i < self.ids().len(),
            0 <= j < self.ids().len(),
            i != j,
        ensures
            self.ids()[i] != self.ids()[j],
    {
        assert(self.id_to_node_idx@[self.node_seq()[i].0] == i);
        assert(self.id_to_node_idx@[self.node_seq()[j].0] == j);
        assert(self.ids()[i] == self.node_seq()[i].0);
        assert(self.ids()[j] == self.node_seq()[j].0);
    }

    /// Well-formedness does not depend on the id allocation cursor (nor on
    /// name and version): flows with the same nodes and the same id map are
    /// well-formed together.
    proof fn lemma_wf_same_core(a: &Flow, b: &Flow)
        requires
            a.wf(),
            a.nodes@ == b.nodes@,
            a.id_to_node_idx@ == b.id_to_node_idx@,
        ensures
            b.wf(),
    {
        assert(b.ids() =~= a.ids());
    }

    pub fn new_empty(name: &str, v: Version) -> (r: Self)
        ensures
            r.wf(),
            r.ids().len() == 0,
            r.descs() == Map::<NodeId, NodeDescription>::empty(),
            r.id_cursor() == 0,
    {
        let r = Self {
            name: name.to_string(),
            version: v,
            nodes: Vec::new(),
            id_to_node_idx: std::collections::HashMap::new(),
            id_to_desc: std::collections::HashMap::new(),
            id_counter: 0,
        };
        proof {
            assert(r.ids() =~= Seq::<NodeId>::empty());
        }
        r
    }

    pub fn new(
        name: &str,
        v: Version,
        nodes: std::collections::HashMap<NodeId, SharedNode>,
    ) -> (r: Self)
        ensures
            r.wf(),
            r.ids().len() == nodes@.dom().len(),
            forall|id: NodeId| #[trigger] nodes@.contains_key(id) ==> r.contains_id(id),
            forall|id: NodeId| #[trigger] r.contains_id(id) ==> nodes@.contains_key(id),
            r.descs() == Map::<NodeId, NodeDescription>::empty(),
            r.id_cursor() == 0,
    {
        let mut obj = Self::new_empty(name, v);
        let entries = crate::sync::map_entries(nodes);
        let ghost entries_view = entries@;
        let mut k: usize = 0;
        while k < entries.len()
            invariant
                obj.wf(),
                entries@ == entries_view,
                k <= entries@.len(),
                obj.ids() =~= entries@.take(k as int).map_values(
                    |p: (NodeId, SharedNode)| p.0,
                ),
                obj.id_cursor() == 0,
                entries@.len() == nodes@.dom().len(),
                obj.descs() == Map::<NodeId, NodeDescription>::empty(),
                forall|i: int|
                    0 <= i < entries_view.len() ==> #[trigger] nodes@.contains_key(
                        entries_view[i].0,
                    ),
                forall|i: int, j: int|
                    0 <= i < j < entries_view.len() ==> entries_view[i].0 != entries_view[j].0,
                forall|id: NodeId| #[trigger] nodes@.contains_key(id) ==> exists|i: int|
                    0 <= i < entries_view.len() && entries_view[i].0 == id,
            decreases entries@.len() - k,
        {
            let pair = &entries[k];
            let id = pair.0;
            let runtime_node = crate::sync::share(&pair.1);
            proof {
                assert(entries_view.take(k as int + 1).map_values(
                    |p: (NodeId, SharedNode)| p.0,
                ) =~= entries_view.take(k as int).map_values(
                    |p: (NodeId, SharedNode)| p.0,
                ).push(entries_view[k as int].0));
                if obj.contains_id(id) {
                    let i = choose|i: int| 0 <= i < obj.ids().len() && obj.ids()[i] == id;
                    assert(entries_view[i].0 == entries_view[k as int].0);
                    assert(false);
                }
            }
            obj.push_pair(id, runtime_node);
            k = k + 1;
        }
        proof {
            assert(entries_view.take(entries_view.len() as int) =~= entries_view);
            assert forall|id: NodeId| #[trigger] nodes@.contains_key(id) implies obj.contains_id(
                id,
            ) by {
                let i = choose|i: int| 0 <= i < entries_view.len() && entries_view[i].0 == id;
                assert(obj.ids()[i] == id);
            }
            assert forall|id: NodeId| #[trigger] obj.contains_id(id) implies nodes@.contains_key(
                id,
            ) by {
                let i = choose|i: int| 0 <= i < obj.ids().len() && obj.ids()[i] == id;
                assert(entries_view[i].0 == id);
            }
        }
        obj
    }

    /// Appends a pair whose id is not yet present, keeping the invariant.
    fn push_pair(&mut self, id: NodeId, node: SharedNode)
        requires
            old(self).wf(),
            !old(self).contains_id(id),
        ensures
            final(self).wf(),
            final(self).node_seq() == old(self).node_seq().push((id, node)),
            final(self).ids() == old(self).ids().push(id),
            final(self).descs() == old(self).descs(),
            final(self).id_cursor() == old(self).id_cursor(),
    {
        let node_idx = self.nodes.len();
        self.nodes.push((id, node));
        self.id_to_node_idx.insert(id, node_idx);
        proof {
            assert(final(self).ids() =~= old(self).ids().push(id));
            assert forall|x: NodeId| #[trigger]
                self.id_to_node_idx@.contains_key(x) <==> self.contains_id(x) by {
                if self.id_to_node_idx@.contains_key(x) {
                    if x == id {
                        assert(self.ids()[self.ids().len() - 1] == id);
                    } else {
                        assert(old(self).contains_id(x));
                        let i = choose|i: int|
                            0 <= i < old(self).ids().len() && old(self).ids()[i] == x;
                        assert(self.ids()[i] == x);
                    }
                } else {
                    if self.contains_id(x) {
                        let i = choose|i: int| 0 <= i < self.ids().len() && self.ids()[i] == x;
                        if i < old(self).ids().len() {
                            assert(old(self).ids()[i] == x);
                        }
                    }
                }
            }
            assert forall|i: int| 0 <= i < self.node_seq().len() implies #[trigger]
                self.id_to_node_idx@.contains_key(self.node_seq()[i].0)
                && self.id_to_node_idx@[self.node_seq()[i].0] == i by {
                if i < old(self).node_seq().len() {
                    assert(old(self).id_to_node_idx@[old(self).node_seq()[i].0] == i);
                    assert(old(self).node_seq()[i].0 != id);
                }
            }
        }
    }

    fn generate_id(&mut self) -> (r: NodeId)
        ensures
            final(self).nodes == old(self).nodes,
            final(self).id_to_node_idx == old(self).id_to_node_idx,
            final(self).id_to_desc == old(self).id_to_desc,
            old(self).wf() ==> final(self).wf(),
            r == final(self).id_cursor(),
            old(self).id_cursor() < u128::MAX ==> final(self).id_cursor() == old(
                self,
            ).id_cursor() + 1,
            old(self).id_cursor() == u128::MAX ==> final(self).id_cursor() == u128::MAX,
    {
        if self.id_counter < u128::MAX {
            self.id_counter = self.id_counter + 1;
        }
        proof {
            if old(self).wf() {
                Self::lemma_wf_same_core(old(self), self);
            }
        }
        self.id_counter
    }

    pub fn node_description_by_id(&self, id: NodeId) -> (r: Option<&NodeDescription>)
        ensures
            match r {
                Some(d) => self.descs().contains_key(id) && *d == self.descs()[id],
                None => !self.descs().contains_key(id),
            },
    {
        self.id_to_desc.get(&id)
    }

    /// Allocates the next id — the cursor moves one forward and the new
    /// cursor position is returned — and stores the node under it with an
    /// empty description.  (If that id was taken by an explicit earlier
    /// insertion, the flow is left unchanged, as for any duplicate id.)
    pub fn add_node<T: RuntimeNode + 'static>(&mut self, node: T) -> (r: NodeId)
        requires
            old(self).wf(),
        ensures
            final(self).wf(),
            r == final(self).id_cursor(),
            old(self).id_cursor() < u128::MAX ==> r == old(self).id_cursor() + 1,
            old(self).id_cursor() == u128::MAX ==> r == u128::MAX,
            !old(self).contains_id(r) ==> final(self).ids() == old(self).ids().push(r)
                && final(self).descs() == old(self).descs().insert(r, final(self).descs()[r])
                && final(self).descs()[r].name@ == Seq::<char>::empty()
                && final(self).descs()[r].description@ == Seq::<char>::empty()
                && final(self).descs()[r].kind@ == Seq::<char>::empty(),
            old(self).contains_id(r) ==> final(self).ids() == old(self).ids()
                && final(self).descs() == old(self).descs(),
    {
        let id = self.generate_id();
        self.add_node_with_id_and_desc(node, id, NodeDescription::default())
    }

    pub fn add_node_with_id<T: RuntimeNode + 'static>(&mut self, node: T, id: NodeId) -> (r:
        NodeId)
        requires
            old(self).wf(),
        ensures
            final(self).wf(),
            r == id,
            final(self).id_cursor() == old(self).id_cursor(),
            !old(self).contains_id(id) ==> final(self).ids() == old(self).ids().push(id)
                && final(self).descs() == old(self).descs().insert(id, final(self).descs()[id])
                && final(self).descs()[id].name@ == Seq::<char>::empty()
                && final(self).descs()[id].description@ == Seq::<char>::empty()
                && final(self).descs()[id].kind@ == Seq::<char>::empty(),
            old(self).contains_id(id) ==> *final(self) == *old(self),
    {
        self.add_node_with_id_and_desc(node, id, NodeDescription::default())
    }

    /// Stores the node under the given id: appended to the indexed sequence
    /// with its description recorded, unless the id is already taken, in
    /// which case the insertion is silently ignored.  Returns the id either
    /// way.
    pub fn add_node_with_id_and_desc<T: RuntimeNode + 'static>(
        &mut self,
        node: T,
        id: NodeId,
        desc: NodeDescription,
    ) -> (r: NodeId)
        requires
            old(self).wf(),
        ensures
            final(self).wf(),
            r == id,
            final(self).id_cursor() == old(self).id_cursor(),
            !old(self).contains_id(id) ==> final(self).ids() == old(self).ids().push(id)
                && final(self).descs() == old(self).descs().insert(id, desc),
            old(self).contains_id(id) ==> *final(self) == *old(self),
    {
        if !self.id_to_node_idx.contains_key(&id) {
            self.push_pair(id, share_node(node));
            self.id_to_desc.insert(id, desc);
        }
        id
    }

    pub fn node_by_index(&self, index: usize) -> (r: Option<&(NodeId, SharedNode)>)
        ensures
            match r {
                Some(p) => index < self.node_seq().len() && *p == self.node_seq()[index as int],
                None => index >= self.node_seq().len(),
            },
    {
        if index < self.nodes.len() {
            Some(&self.nodes[index])
        } else {
            None
        }
    }

    /// The `(id, node)` pair stored under the id, if any.
    pub fn node_by_id(&self, id: NodeId) -> (r: Option<&(NodeId, SharedNode)>)
        requires
            self.wf(),
        ensures
            match r {
                Some(p) => self.contains_id(id) && self.node_seq().contains(*p) && p.0 == id,
                None => !self.contains_id(id),
            },
    {
        match self.id_to_node_idx.get(&id) {
            Some(idx) => {
                proof {
                    assert(self.id_to_node_idx@.contains_key(id) && self.id_to_node_idx@[id]
                        == *idx);
                    assert(self.ids().contains(id));
                    let i = choose|i: int| 0 <= i < self.ids().len() && self.ids()[i] == id;
                    assert(self.ids()[i] == self.node_seq()[i].0);
                    assert(self.id_to_node_idx@[self.node_seq()[i].0] == i);
                    assert(i == *idx);
                    assert(self.node_seq()[*idx as int].0 == id);
                }
                let r = self.node_by_index(*idx);
                r
            },
            None => None,
        }
    }

    pub fn num_nodes(&self) -> (r: usize)
        ensures
            r == self.ids().len(),
    {
        self.nodes.len()
    }

    /// Invokes `on_init` on every node in insertion order; stops at the
    /// first failing hook and reports it with the node's id.
    pub fn init_all(&self) -> (r: Result<(), FlowError>)
        ensures
            self.ids().len() == 0 ==> r is Ok,
            r matches Err(e) ==> e matches FlowError::InitFailed { node_id, .. }
                && self.contains_id(e.spec_node_id()),
    {
        let n = self.nodes.len();
        let mut i: usize = 0;
        while i < n
            invariant
                n == self.node_seq().len(),
                i <= n,
            decreases n - i,
        {
            let pair = &self.nodes[i];
            match node_on_init(&pair.1) {
                Ok(()) => {},
                Err(e) => {
                    proof {
                        assert(self.ids()[i as int] == pair.0);
                    }
                    return Err(FlowError::InitFailed { node_id: pair.0, source: e });
                },
            }
            i = i + 1;
        }
        Ok(())
    }

    /// Invokes `on_shutdown` on every node in insertion order; stops at the
    /// first failing hook and reports it with the node's id.
    pub fn shutdown_all(&self) -> (r: Result<(), FlowError>)
        ensures
            self.ids().len() == 0 ==> r is Ok,
            r matches Err(e) ==> e matches FlowError::ShutdownFailed { node_id, .. }
                && self.contains_id(e.spec_node_id()),
    {
        let n = self.nodes.len();
        let mut i: usize = 0;
        while i < n
            invariant
                n == self.node_seq().len(),
                i <= n,
            decreases n - i,
        {
            let pair = &self.nodes[i];
            match node_on_shutdown(&pair.1) {
                Ok(()) => {},
                Err(e) => {
                    proof {
                        assert(self.ids()[i as int] == pair.0);
                    }
                    return Err(FlowError::ShutdownFailed { node_id: pair.0, source: e });
                },
            }
            i = i + 1;
        }
        Ok(())
    }

    /// Invokes `on_ready` on every node in insertion order; stops at the
    /// first failing hook and reports it with the node's id.
    pub fn ready_all(&self) -> (r: Result<(), FlowError>)
        ensures
            self.ids().len() == 0 ==> r is Ok,
            r matches Err(e) ==> e matches FlowError::ReadyFailed { node_id, .. }
                && self.contains_id(e.spec_node_id()),
    {
        let n = self.nodes.len();
        let mut i: usize = 0;
        while i < n
            invariant
                n == self.node_seq().len(),
                i <= n,
            decreases n - i,
        {
            let pair = &self.nodes[i];
            match node_on_ready(&pair.1) {
                Ok(()) => {},
                Err(e) => {
                    proof {
                        assert(self.ids()[i as int] == pair.0);
                    }
                    return Err(FlowError::ReadyFailed { node_id: pair.0, source: e });
                },
            }
            i = i + 1;
        }
        Ok(())
    }

    /// Collects the update controllers of the nodes that expose one, in
    /// insertion order.
    pub fn get_update_controllers(&self) -> (r: Vec<
        std::sync::Arc<std::sync::Mutex<Box<dyn UpdateController>>>,
    >)
        ensures
            r@.len() <= self.ids().len(),
    {
        let mut update_controllers: Vec<
            std::sync::Arc<std::sync::Mutex<Box<dyn UpdateController>>>,
        > = Vec::new();
        let n = self.nodes.len();
        let mut i: usize = 0;
        while i < n
            invariant
                n == self.node_seq().len(),
                i <= n,
                update_controllers@.len() <= i,
            decreases n - i,
        {
            match node_update_controller(&self.nodes[i].1) {
                Some(us) => {
                    update_controllers.push(us);
                },
                None => {},
            }
            i = i + 1;
        }
        update_controllers
    }
}

/// Law: one round-robin epoch updates each node at most once.  The
/// round-robin scheduler hands the executor each position at most once per
/// epoch (see [`crate::sched::round_robin::lemma_epoch_positions_distinct`]),
/// and in a well-formed flow two distinct positions never carry the same
/// node id — so within one epoch no node id is handed to the updater twice.
pub proof fn lemma_epoch_updates_each_node_at_most_once(flow: &Flow, k1: int, k2: int)
    requires
        flow.wf(),
        0 <= k1 < flow.ids().len(),
        0 <= k2 < flow.ids().len(),
        k1 != k2,
    ensures
        flow.ids()[k1] != flow.ids()[k2],
{
    flow.lemma_wf_ids_distinct(k1, k2);
}

} // verus!
