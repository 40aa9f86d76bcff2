pub mod scheduler;
pub mod round_robin;
pub mod flow;
pub mod executor;
pub mod execution;
pub mod node_updater;
