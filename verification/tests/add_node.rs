use flowrs::connection::{connect, Edge, Input, Output, RuntimeConnectable};
use flowrs::node::{Context, Node, State};
use serde_json::Value;

use flowrs::nodes::add::AddNode;

#[test]
fn add_should_add_132() {
    let context = State::new(Context::new());
    let mut add: AddNode<i32, i32, i32> = AddNode::new("AddNodeI32", context, Value::Null);
    let mock_output = Edge::new();
    connect(add.output_1.clone(), mock_output.clone());
    let _ = add.input_1.send(1);
    let _ = add.input_2.send(2);
    let _ = add.on_update();
    let _ = add.on_update();

    let expected = 3;
    let actual = mock_output.next().unwrap();
    assert!(expected == actual);
}

/// Scenario:
///
/// [0, 1, ..., 100]
///         \
///          >-<Add>--[100, 100, ..., 100]
///         /
/// [100, 99, ..., 0]
#[test]
fn add_should_add_multiple_132_sequentially() {
    let context = State::new(Context::new());
    let mut add: AddNode<i32, i32, i32> = AddNode::new("AddNodeI32", context, Value::Null);
    let mock_output = Edge::new();
    connect(add.output_1.clone(), mock_output.clone());
    (0..100).for_each(|int| {
        let _ = add.input_1.send(int);
    });
    (0..101).rev().for_each(|int| {
        let _ = add.input_2.send(int);
    });
    (0..100).for_each(|_| {
        let _ = add.on_update();
    });
    let mut actual = vec![];
    for _ in 0..100 {
        let curr = mock_output.next().unwrap();
        actual.push(curr)
    }
    let exected = vec![100; 100];
    assert!(
        exected == actual,
        "expected was: {:?} while actual was {:?}",
        exected,
        actual
    );
}

#[test]
fn add_should_return_lhs_at_runtime() {
    let context = State::new(Context::new());
    let add: AddNode<i32, i32, i32> = AddNode::new("AddNodeI32", context.clone(), Value::Null);
    let input1 = add.input_at(0);
    let input1_downcasted = input1.downcast::<Input<i32>>();
    assert!(input1_downcasted.is_some())
}

#[test]
fn add_should_return_rhs_at_runtime() {
    let context = State::new(Context::new());
    let add: AddNode<i32, i32, i32> = AddNode::new("AddNodeI32", context.clone(), Value::Null);
    let input1 = add.input_at(1);
    let input1_downcasted = input1.downcast::<Input<i32>>();
    assert!(input1_downcasted.is_some())
}

#[test]
fn add_should_return_output_at_runtime() {
    let context = State::new(Context::new());
    let add: AddNode<i32, i32, i32> = AddNode::new("AddNodeI32", context.clone(), Value::Null);
    let output1 = add.output_at(0);
    let output1_downcasted = output1.downcast::<Output<i32>>();
    assert!(output1_downcasted.is_some())
}

#[test]
fn node_should_add_132() {
    let context = State::new(Context::new());
    let mut add: AddNode<i32, i32, i32> = AddNode::new("AddNodeI32", context, Value::Null);
    let mock_output = Edge::new();
    connect(add.output_1.clone(), mock_output.clone());
    let _ = add.input_1.send(1);
    let _ = add.input_2.send(2);
    let _ = add.on_update();
    let _ = add.on_update();

    let expected = 3;
    let actual = mock_output.next().unwrap();
    assert!(expected == actual);
}

#[test]
fn node_should_add_multiple_132_sequentially() {
    let context = State::new(Context::new());
    let mut add: AddNode<i32, i32, i32> = AddNode::new("AddNodeI32", context, Value::Null);
    let mock_output = Edge::new();
    connect(add.output_1.clone(), mock_output.clone());
    (0..100).for_each(|int| {
        let _ = add.input_1.send(int);
    });
    (0..101).rev().for_each(|int| {
        let _ = add.input_2.send(int);
    });
    (0..100).for_each(|_| {
        let _ = add.on_update();
    });
    let mut actual = vec![];
    for _ in 0..100 {
        let curr = mock_output.next().unwrap();
        actual.push(curr)
    }
    let exected = vec![100; 100];
    assert!(
        exected == actual,
        "expected was: {:?} while actual was {:?}",
        exected,
        actual
    );
}

#[test]
fn node_should_return_lhs_at_runtime() {
    let context = State::new(Context::new());
    let add: AddNode<i32, i32, i32> = AddNode::new("AddNodeI32", context.clone(), Value::Null);
    let input1 = add.input_at(0);
    assert!(input1.downcast::<Input<i32>>().is_some())
}

#[test]
fn node_should_return_rhs_at_runtime() {
    let context = State::new(Context::new());
    let add: AddNode<i32, i32, i32> = AddNode::new("AddNodeI32", context.clone(), Value::Null);
    let input1 = add.input_at(1);
    assert!(input1.downcast::<Input<i32>>().is_some())
}

#[test]
fn node_should_return_output_at_runtime() {
    let context = State::new(Context::new());
    let add: AddNode<i32, i32, i32> = AddNode::new("AddNodeI32", context.clone(), Value::Null);
    let output1 = add.output_at(0);
    assert!(output1.downcast::<Output<i32>>().is_some())
}

#[test]
fn test_node_should_add_132() {
    let context = State::new(Context::new());
    let mut add: AddNode<i32, i32, i32> = AddNode::new("AddNodeI32", context, Value::Null);
    let mock_output = Edge::new();
    connect(add.output_1.clone(), mock_output.clone());
    let _ = add.input_1.send(1);
    let _ = add.input_2.send(2);
    let _ = add.on_update();
    let _ = add.on_update();

    let expected = 3;
    let actual = mock_output.next().unwrap();
    assert!(expected == actual);
}

#[test]
fn test_node_should_add_multiple_132_sequentially() {
    let context = State::new(Context::new());
    let mut add: AddNode<i32, i32, i32> = AddNode::new("AddNodeI32", context, Value::Null);
    let mock_output = Edge::new();
    connect(add.output_1.clone(), mock_output.clone());
    (0..100).for_each(|int| {
        let _ = add.input_1.send(int);
    });
    (0..101).rev().for_each(|int| {
        let _ = add.input_2.send(int);
    });
    (0..100).for_each(|_| {
        let _ = add.on_update();
    });
    let mut actual = vec![];
    for _ in 0..100 {
        let curr = mock_output.next().unwrap();
        actual.push(curr)
    }
    let exected = vec![100; 100];
    assert!(
        exected == actual,
        "expected was: {:?} while actual was {:?}",
        exected,
        actual
    );
}

#[test]
fn test_node_should_return_lhs_at_runtime() {
    let context = State::new(Context::new());
    let add: AddNode<i32, i32, i32> = AddNode::new("AddNodeI32", context.clone(), Value::Null);
    assert!(add.input_at(0).downcast::<Input<i32>>().is_some())
}

#[test]
fn test_node_should_return_rhs_at_runtime() {
    let context = State::new(Context::new());
    let add: AddNode<i32, i32, i32> = AddNode::new("AddNodeI32", context.clone(), Value::Null);
    assert!(add.input_at(1).downcast::<Input<i32>>().is_some())
}

#[test]
fn test_node_should_return_output_at_runtime() {
    let context = State::new(Context::new());
    let add: AddNode<i32, i32, i32> = AddNode::new("AddNodeI32", context.clone(), Value::Null);
    assert!(add.output_at(0).downcast::<Output<i32>>().is_some())
}

/// A second value in a row on the same input is rejected as a sequence
/// error, and the waiting value is kept.
#[test]
fn add_rejects_unpaired_second_value() {
    let context = State::new(Context::new());
    let mut add: AddNode<i32, i32, i32> = AddNode::new("AddNodeI32", context, Value::Null);
    let mock_output = Edge::new();
    connect(add.output_1.clone(), mock_output.clone());
    let _ = add.input_1.send(7);
    let _ = add.input_1.send(8);
    assert!(add.on_update().is_ok());
    let err = add.on_update();
    match err {
        Err(flowrs::node::UpdateError::SequenceError { message }) => {
            assert_eq!(message, "Addition should happen pairwise.");
        }
        _ => panic!("expected a sequence error"),
    }
    // The held 7 still pairs with a later value on the other input.
    let _ = add.input_2.send(35);
    assert!(add.on_update().is_ok());
    assert_eq!(mock_output.next().unwrap(), 42);
}
