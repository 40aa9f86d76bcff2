//! A dataflow graph execution engine.
//!
//! A computation is described as a directed graph of nodes connected by typed
//! edges.  The engine drives each node through an initialize / ready / update /
//! shutdown lifecycle, moves values along edges, and runs until cancelled.

pub mod sync;
pub mod nodes;
pub mod flow;
pub mod sched;
pub mod exec;
pub mod shapes;

pub use self::nodes::connection;
pub use self::nodes::node;
pub use self::flow::flow as flow_impl;
pub use self::flow::version;
pub use self::sched::scheduler;
