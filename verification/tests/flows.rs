use std::collections::HashMap;

use serde_json::Value;

use flowrs::flow_impl::Flow;
use flowrs::nodes::add::Addable;
use flowrs::flow::app_state::{AppState, FlowType};
use flowrs::flow::flow_type;
use flowrs::node::{Context, Node, State, UpdateError};
use flowrs::nodes::basic::BasicNode;
use flowrs::nodes::debug::DebugNode;
use flowrs::version::Version;

#[test]
fn ids_are_assigned_monotonically() {
    let context = State::new(Context::new());
    let mut flow = Flow::new_empty("flow1", Version::new(1, 0, 0));
    let a = flow.add_node(BasicNode::new("a", context.clone(), 1));
    let b = flow.add_node(BasicNode::new("b", context.clone(), 2));
    let c = flow.add_node(BasicNode::new("c", context, 3));
    assert_eq!((a, b, c), (1, 2, 3));
    assert_eq!(flow.num_nodes(), 3);
}

#[test]
fn duplicate_id_is_ignored() {
    let context = State::new(Context::new());
    let mut flow = Flow::new_empty("flow1", Version::new(1, 0, 0));
    let first = flow.add_node_with_id(BasicNode::new("a", context.clone(), 1), 9);
    let second = flow.add_node_with_id(BasicNode::new("b", context, 2), 9);
    assert_eq!(first, 9);
    assert_eq!(second, 9);
    assert_eq!(flow.num_nodes(), 1);
}

/// The allocator hands out the next cursor position even when an explicit
/// insertion already took it; the colliding insertion is then a no-op.
#[test]
fn auto_id_colliding_with_explicit_id_is_ignored() {
    let context = State::new(Context::new());
    let mut flow = Flow::new_empty("flow1", Version::new(1, 0, 0));
    flow.add_node_with_id(BasicNode::new("a", context.clone(), 1), 1);
    let second = flow.add_node(BasicNode::new("b", context, 2));
    assert_eq!(second, 1);
    assert_eq!(flow.num_nodes(), 1);
}

#[test]
fn nodes_are_found_by_id_and_index() {
    let context = State::new(Context::new());
    let mut flow = Flow::new_empty("flow1", Version::new(1, 0, 0));
    let id = flow.add_node(BasicNode::new("a", context, 1));
    let by_index = flow.node_by_index(0).expect("index 0 is taken");
    assert_eq!(by_index.0, id);
    let by_id = flow.node_by_id(id).expect("the id is known");
    assert_eq!(by_id.0, id);
    assert!(flow.node_by_index(1).is_none());
    assert!(flow.node_by_id(77).is_none());
}

#[test]
fn descriptions_are_recorded_per_id() {
    let context = State::new(Context::new());
    let mut flow = Flow::new_empty("flow1", Version::new(1, 0, 0));
    let id = flow.add_node(BasicNode::new("a", context, 1));
    let desc = flow.node_description_by_id(id).expect("a default description");
    assert_eq!(desc.name, "");
    assert!(flow.node_description_by_id(id + 1).is_none());
}

#[test]
fn flow_builds_from_a_node_map() {
    let context = State::new(Context::new());
    let mut nodes = HashMap::new();
    let mut prepared = Flow::new_empty("staging", Version::new(1, 0, 0));
    let id = prepared.add_node(BasicNode::new("a", context, 1));
    let pair = prepared.node_by_id(id).expect("just added");
    nodes.insert(41u128, pair.1.clone());
    let flow = Flow::new("flow1", Version::new(1, 0, 0), nodes);
    assert_eq!(flow.num_nodes(), 1);
    assert!(flow.node_by_id(41).is_some());
    assert!(flow.node_by_id(42).is_none());
}

#[test]
fn early_flow_shape_runs_its_lifecycle() {
    let context = State::new(Context::new());
    let mut flow = flow_type::Flow::new("flow1", Version::new(1, 0, 0));
    flow.add_node(BasicNode::new("a", context, 5));
    assert_eq!(flow.num_nodes(), 1);
    assert!(flow.get_node(0).is_some());
    assert!(flow.get_node(1).is_none());
    flow.init_all();
    flow.ready_all();
    flow.shutdown_all();
}

#[test]
fn version_carries_its_parts() {
    let v = Version::new(1, 2, 3);
    assert_eq!((v.major, v.minor, v.patch), (1, 2, 3));
}

#[test]
fn app_state_builds_and_connects_by_name() {
    let mut state = AppState::new();
    let basic = state.add_node("source", "nodes.basic".to_string(), Value::Bool(true));
    let probe = state.add_node("probe", "nodes.debug".to_string(), Value::Null);
    let adder = state.add_node("adder", "nodes.arithmetics.add".to_string(), Value::Null);
    assert_eq!((basic.as_str(), probe.as_str(), adder.as_str()), ("source", "probe", "adder"));
    assert_eq!(state.nodes.len(), 3);

    assert!(state.connect_at("source".to_string(), "probe".to_string(), 0, 0).is_ok());
    assert!(state.connect_at("probe".to_string(), "adder".to_string(), 0, 0).is_ok());
    assert!(state
        .connect_at("nobody".to_string(), "probe".to_string(), 0, 0)
        .is_err());
    // An out-of-range endpoint index is a cast failure, not a panic.
    match state.connect_at("source".to_string(), "probe".to_string(), 0, 5) {
        Err(flowrs::connection::ConnectError::CastFailed { message }) => {
            assert_eq!(message, "source");
        }
        _ => panic!("expected a cast failure"),
    }

    state.run();
}

/// Whole numbers of matching width add up and texts concatenate; other
/// payload pairs have no sum.
#[test]
fn flow_type_addition_is_numeric() {
    let sum = FlowType::I32(30).try_sum(FlowType::I32(12));
    match sum {
        Some(FlowType::I32(v)) => assert_eq!(v, 42),
        _ => panic!("expected a 32-bit sum"),
    }
    let wide = FlowType::I64(40).try_sum(FlowType::I64(2));
    match wide {
        Some(FlowType::I64(v)) => assert_eq!(v, 42),
        _ => panic!("expected a 64-bit sum"),
    }
    assert!(FlowType::I32(i32::MAX).try_sum(FlowType::I32(1)).is_none());
    assert!(FlowType::I32(1).try_sum(FlowType::I64(1)).is_none());
    match FlowType::Text("a".to_string()).try_sum(FlowType::Text("b".to_string())) {
        Some(FlowType::Text(s)) => assert_eq!(s, "ab"),
        _ => panic!("expected concatenated text"),
    }
}

/// A probe forwards what it receives, unchanged.
#[test]
fn debug_node_forwards_values() {
    let context = State::new(Context::new());
    let mut probe = DebugNode::new("probe", context, Value::Null);
    let sink = flowrs::connection::Edge::new();
    flowrs::connection::connect(probe.output.clone(), sink.clone());
    let _ = probe.input.send(7);
    let res: Result<(), UpdateError> = probe.on_update();
    assert!(res.is_ok());
    assert_eq!(sink.next().unwrap(), 7);
}
