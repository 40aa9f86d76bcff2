use vstd::prelude::*;
use vstd::string::StringExecFns;

pub use crate::nodes::connection::RuntimeNode;

use crate::nodes::add::{Addable, AddNode};
use crate::nodes::basic::BasicNode;
use crate::nodes::connection::{
    connect, node_input_at, node_on_init, node_on_ready, node_on_shutdown, node_on_update,
    node_output_at, share_node, ConnectError, Input, Output, SharedNode,
};
use crate::nodes::debug::DebugNode;
use crate::nodes::node::{Context, State};

verus! {

/// Relies on serde_json::Value::Null being a plain unit variant: the empty
/// property set.
#[verifier::external_body]
pub(crate) fn json_null() -> serde_json::Value {
    serde_json::Value::Null
}

/// Relies on serde_json::Value's Clone: the clone carries the same document.
#[verifier::external_body]
pub(crate) fn json_clone(v: &serde_json::Value) -> (r: serde_json::Value)
    ensures
        r == *v,
{
    v.clone()
}

/// The value kinds a runtime-described graph moves along its edges.  Whole
/// numbers of a matching kind add up, and two texts concatenate; sums that
/// would overflow, and other payload pairs, are undefined.
#[derive(Debug)]
pub enum FlowType {
    I64(i64),
    I32(i32),
    Text(String),
    Json(serde_json::Value),
}

impl Clone for FlowType {
    fn clone(&self) -> (r: Self)
        ensures
            r == *self,
    {
        match *self {
            FlowType::I64(v) => FlowType::I64(v),
            FlowType::I32(v) => FlowType::I32(v),
            FlowType::Text(ref s) => FlowType::Text(s.clone()),
            FlowType::Json(ref v) => FlowType::Json(json_clone(v)),
        }
    }
}

impl Addable<FlowType, FlowType> for FlowType {
    open spec fn sum_defined(self, rhs: FlowType) -> bool {
        match (self, rhs) {
            (FlowType::I64(a), FlowType::I64(b)) => i64::MIN <= a + b <= i64::MAX,
            (FlowType::I32(a), FlowType::I32(b)) => i32::MIN <= a + b <= i32::MAX,
            (FlowType::Text(a), FlowType::Text(b)) => true,
            _ => false,
        }
    }

    open spec fn sum_rel(self, rhs: FlowType, out: FlowType) -> bool {
        match (self, rhs) {
            (FlowType::I64(a), FlowType::I64(b)) => out == FlowType::I64((a + b) as i64),
            (FlowType::I32(a), FlowType::I32(b)) => out == FlowType::I32((a + b) as i32),
            (FlowType::Text(a), FlowType::Text(b)) => out matches FlowType::Text(s) && s@ == a@
                + b@,
            _ => false,
        }
    }

    fn try_sum(self, rhs: FlowType) -> (r: Option<FlowType>) {
        match (self, rhs) {
            (FlowType::I64(a), FlowType::I64(b)) => match a.checked_add(b) {
                Some(s) => Some(FlowType::I64(s)),
                None => None,
            },
            (FlowType::I32(a), FlowType::I32(b)) => match a.checked_add(b) {
                Some(s) => Some(FlowType::I32(s)),
                None => None,
            },
            (FlowType::Text(a), FlowType::Text(b)) => {
                let mut joined = a;
                joined.append(b.as_str());
                Some(FlowType::Text(joined))
            },
            _ => None,
        }
    }
}

/// A graph assembled from a runtime description: nodes resolved by kind
/// name, indexable by their given names, all sharing one context.
pub struct AppState {
    pub nodes: Vec<SharedNode>,
    pub node_idc: std::collections::HashMap<String, usize>,
    pub context: State<Context>,
}

impl AppState {
    pub fn new() -> (r: AppState)
        ensures
            r.nodes@.len() == 0,
    {
        AppState {
            nodes: Vec::new(),
            node_idc: std::collections::HashMap::new(),
            context: State::new(Context::new()),
        }
    }

    /// Builds the node the kind names, stores it under the given name, and
    /// hands the name back.  The known kinds are the arithmetic add node,
    /// the basic source (whose properties become its emitted value), and the
    /// debug pass-through.
    pub fn add_node(&mut self, name: &str, kind: String, props: serde_json::Value) -> (r: String)
        requires
            kind@ == "nodes.arithmetics.add"@ || kind@ == "nodes.basic"@ || kind@
                == "nodes.debug"@,
        ensures
            final(self).nodes@.len() == old(self).nodes@.len() + 1,
            r@ == name@,
    {
        let node: SharedNode = if kind == "nodes.arithmetics.add".to_string() {
            share_node(
                AddNode::<FlowType, FlowType, FlowType>::new(
                    name,
                    self.context.clone(),
                    json_null(),
                ),
            )
        } else if kind == "nodes.basic".to_string() {
            share_node(BasicNode::new(name, self.context.clone(), FlowType::Json(props)))
        } else {
            share_node(DebugNode::<FlowType>::new(name, self.context.clone(), json_null()))
        };
        self.nodes.push(node);
        let idx = self.nodes.len() - 1;
        self.node_idc.insert(name.to_string(), idx);
        name.to_string()
    }

    /// Binds the output `index_out` of the node named `lhs` to the input
    /// `index_in` of the node named `rhs`.  Unknown names and endpoints that
    /// do not carry [`FlowType`] values are reported, not panicked over.
    pub fn connect_at(
        &mut self,
        lhs: String,
        rhs: String,
        index_in: usize,
        index_out: usize,
    ) -> (r: Result<(), ConnectError<FlowType>>)
        ensures
            final(self).nodes@ == old(self).nodes@,
            final(self).node_idc@ == old(self).node_idc@,
    {
        let lhs_idx: usize = match self.node_idc.get(&lhs) {
            Some(i) => *i,
            None => {
                return Err(ConnectError::MissingNode { message: lhs });
            },
        };
        let rhs_idx: usize = match self.node_idc.get(&rhs) {
            Some(i) => *i,
            None => {
                return Err(ConnectError::MissingNode { message: rhs });
            },
        };
        if lhs_idx >= self.nodes.len() || rhs_idx >= self.nodes.len() {
            return Err(ConnectError::MissingNode { message: lhs });
        }
        let out_edge: Output<FlowType> = match node_output_at(&self.nodes[lhs_idx], index_out) {
            Some(handle) => match handle.downcast::<Output<FlowType>>() {
                Some(rc) => (*rc).clone(),
                None => {
                    return Err(ConnectError::CastFailed { message: lhs });
                },
            },
            None => {
                return Err(ConnectError::CastFailed { message: lhs });
            },
        };
        let in_edge: Input<FlowType> = match node_input_at(&self.nodes[rhs_idx], index_in) {
            Some(handle) => match handle.downcast::<Input<FlowType>>() {
                Some(rc) => (*rc).clone(),
                None => {
                    return Err(ConnectError::CastFailed { message: rhs });
                },
            },
            None => {
                return Err(ConnectError::CastFailed { message: rhs });
            },
        };
        connect(out_edge, in_edge);
        Ok(())
    }

    /// Drives the assembled graph through one bounded run: init and ready
    /// every node, a fixed number of update rounds over all nodes, then
    /// shut every node down.  Hook results are not reported here.
    pub fn run(&mut self)
        ensures
            final(self).nodes@ == old(self).nodes@,
            final(self).node_idc@ == old(self).node_idc@,
    {
        let n = self.nodes.len();
        let mut i: usize = 0;
        while i < n
            invariant
                n == self.nodes@.len(),
            decreases n - i,
        {
            let _ = node_on_init(&self.nodes[i]);
            i = i + 1;
        }
        let mut j: usize = 0;
        while j < n
            invariant
                n == self.nodes@.len(),
            decreases n - j,
        {
            let _ = node_on_ready(&self.nodes[j]);
            j = j + 1;
        }
        let mut round: usize = 0;
        while round < 100
            invariant
                n == self.nodes@.len(),
            decreases 100 - round,
        {
            let mut k: usize = 0;
            while k < n
                invariant
                    n == self.nodes@.len(),
                decreases n - k,
            {
                let _ = node_on_update(&self.nodes[k]);
                k = k + 1;
            }
            round = round + 1;
        }
        let mut m: usize = 0;
        while m < n
            invariant
                n == self.nodes@.len(),
            decreases n - m,
        {
            let _ = node_on_shutdown(&self.nodes[m]);
            m = m + 1;
        }
    }
}

} // verus!
