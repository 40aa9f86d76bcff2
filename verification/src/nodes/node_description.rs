use vstd::prelude::*;

verus! {

/// Describes a node.
/// Please note that this separates meta data like a node's name from its
/// implementation (see also [`crate::nodes::node::Node`]).
#[derive(Debug, PartialEq)]
pub struct NodeDescription {
    pub name: String,
    pub description: String,
    pub kind: String,
}

impl Default for NodeDescription {
    /// The empty description: all three fields blank.
    fn default() -> (r: Self)
        ensures
            r.name@ == Seq::<char>::empty(),
            r.description@ == Seq::<char>::empty(),
            r.kind@ == Seq::<char>::empty(),
    {
        NodeDescription { name: String::new(), description: String::new(), kind: String::new() }
    }
}

impl Clone for NodeDescription {
    fn clone(&self) -> (r: Self)
        ensures
            r.same_as(self),
    {
        NodeDescription {
            name: self.name.clone(),
            description: self.description.clone(),
            kind: self.kind.clone(),
        }
    }
}

impl NodeDescription {
    /// Two descriptions agree when all three fields carry the same text.
    pub open spec fn same_as(&self, other: &NodeDescription) -> bool {
        &&& self.name@ == other.name@
        &&& self.description@ == other.description@
        &&& self.kind@ == other.kind@
    }
}

} // verus!
