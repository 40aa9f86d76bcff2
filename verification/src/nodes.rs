pub mod node;
pub mod node_description;
pub mod connection;
pub mod add;
pub mod basic;
pub mod debug;
pub mod repeat;
pub mod to_string;
pub mod job;
pub mod js_interp;
