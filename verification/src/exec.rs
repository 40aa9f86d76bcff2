pub mod execution;
pub mod execution_controller;
pub mod execution_state;
pub mod node_updater;
