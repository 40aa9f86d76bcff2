use vstd::prelude::*;

use crate::nodes::job::Context;

verus! {

/// A node that holds a script to run against the values it sees.  The engine
/// only stores the script; running it is an embedder's affair.
pub struct DebugNode {
    _context: std::sync::Arc<Context>,
    _state: String,
    js_code: String,
    name: String,
}

impl DebugNode {
    /// The held script.
    pub closed spec fn script(&self) -> Seq<char> {
        self.js_code@
    }

    pub fn new(name: &str, context: std::sync::Arc<Context>, js_code: String) -> (r: Self)
        ensures
            r.script() == js_code@,
    {
        Self { _state: String::new(), js_code, name: name.to_string(), _context: context }
    }
}

} // verus!
