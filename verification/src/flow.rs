pub mod version;
pub mod flow;
pub mod flow_type;
pub mod app_state;
