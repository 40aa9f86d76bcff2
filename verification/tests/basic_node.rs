use flowrs::connection::{connect, Edge};
use flowrs::node::{Context, Node, State};
use serde_json::Value;

use flowrs::nodes::basic::BasicNode;
use flowrs::nodes::debug::DebugNode;

#[test]
fn should_send_on_ready() {
    let context = State::new(Context::new());
    let node = BasicNode::new("My Node", context, 42);
    let mock_output = Edge::new();
    connect(node.output.clone(), mock_output.clone());
    node.on_ready().unwrap();

    let expected = 42;
    let actual = mock_output.next().unwrap();
    assert!(expected == actual);
}

#[test]
fn debug_should_add_132() {
    let context = State::new(Context::new());
    let mock_output = Edge::new();
    let mut fst = DebugNode::new("AddNodeI32", context.clone(), Value::Null);
    let mut snd = DebugNode::new("AddNodeI32", context, Value::Null);
    connect(fst.output.clone(), snd.input.clone());
    connect(snd.output.clone(), mock_output.clone());
    let _ = fst.input.send(1);
    let _ = fst.on_update();
    let _ = snd.on_update();

    let expected = 1;
    let actual = mock_output.next().unwrap();
    assert!(expected == actual);
}

/// An unready source: emitting into an unbound output is reported, not
/// swallowed by a panic.
#[test]
fn basic_node_reports_unbound_output() {
    let context = State::new(Context::new());
    let node = BasicNode::new("My Node", context, 1);
    assert!(node.on_ready().is_err());
}
