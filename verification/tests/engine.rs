use std::sync::{Arc, Mutex};

use serde_json::Value;

use flowrs::connection::{connect, Edge, Input, Output, RuntimeConnectable, SharedNode};
use flowrs::exec::execution::{ExecutionError, Executor, StandardExecutor};
use flowrs::exec::execution_controller::ExecutionController;
use flowrs::exec::execution_state::ExecutionState;
use flowrs::sched::executor::ExecutorState;
use flowrs::exec::node_updater::{
    NodeUpdateError, NodeUpdater, SingleThreadedNodeUpdater, SleepMode,
};
use flowrs::flow_impl::{Flow, NodeId};
use flowrs::node::{AnyHandle, ChangeObserver, Context, InitError, Node, State, UpdateError};
use flowrs::nodes::add::AddNode;
use flowrs::nodes::basic::BasicNode;
use flowrs::nodes::node_description::NodeDescription;
use flowrs::sched::round_robin::RoundRobinScheduler;
use flowrs::version::Version;

/// A node that requests cancellation once it has been updated a given number
/// of times.
struct CancelNode {
    controller: Arc<Mutex<ExecutionController>>,
    after: u32,
    count: u32,
}

impl Node for CancelNode {
    fn on_update(&mut self) -> Result<(), UpdateError> {
        self.count += 1;
        if self.count >= self.after {
            self.controller.lock().unwrap().cancel();
        }
        Ok(())
    }
}

impl RuntimeConnectable for CancelNode {
    fn n_inputs(&self) -> usize {
        0
    }

    fn n_outputs(&self) -> usize {
        0
    }

    fn input_count(&self) -> usize {
        0
    }

    fn output_count(&self) -> usize {
        0
    }

    fn input_at(&self, _index: usize) -> AnyHandle {
        panic!("CancelNode has no inputs")
    }

    fn output_at(&self, _index: usize) -> AnyHandle {
        panic!("CancelNode has no outputs")
    }
}

/// A node whose update always fails.
struct FailNode {
    pub input_1: Input<i32>,
    pub output_1: Output<i32>,
}

impl FailNode {
    fn new(change_observer: Option<&ChangeObserver>) -> Self {
        Self {
            input_1: Input::new(),
            output_1: Output::new(change_observer),
        }
    }
}

impl Node for FailNode {
    fn on_update(&mut self) -> Result<(), UpdateError> {
        Err(UpdateError::Other(anyhow::Error::msg("fail")))
    }
}

impl RuntimeConnectable for FailNode {
    fn n_inputs(&self) -> usize {
        1
    }

    fn n_outputs(&self) -> usize {
        1
    }

    fn input_count(&self) -> usize {
        1
    }

    fn output_count(&self) -> usize {
        1
    }

    fn input_at(&self, _index: usize) -> AnyHandle {
        AnyHandle::of(self.input_1.clone())
    }

    fn output_at(&self, _index: usize) -> AnyHandle {
        AnyHandle::of(self.output_1.clone())
    }
}

/// A node that records which lifecycle hooks ran, in order, and may fail its
/// init hook; it asks for cancellation after its first update.
struct RecorderNode {
    log: Arc<Mutex<Vec<&'static str>>>,
    controller: Option<Arc<Mutex<ExecutionController>>>,
    err_on_init: bool,
}

impl Node for RecorderNode {
    fn on_init(&self) -> Result<(), InitError> {
        self.log.lock().unwrap().push("init");
        if self.err_on_init {
            Err(InitError::Other(anyhow::Error::msg("init refused")))
        } else {
            Ok(())
        }
    }

    fn on_ready(&self) -> Result<(), flowrs::node::ReadyError> {
        self.log.lock().unwrap().push("ready");
        Ok(())
    }

    fn on_shutdown(&self) -> Result<(), flowrs::node::ShutdownError> {
        self.log.lock().unwrap().push("shutdown");
        Ok(())
    }

    fn on_update(&mut self) -> Result<(), UpdateError> {
        self.log.lock().unwrap().push("update");
        if let Some(c) = &self.controller {
            c.lock().unwrap().cancel();
        }
        Ok(())
    }
}

impl RuntimeConnectable for RecorderNode {
    fn n_inputs(&self) -> usize {
        0
    }

    fn n_outputs(&self) -> usize {
        0
    }

    fn input_count(&self) -> usize {
        0
    }

    fn output_count(&self) -> usize {
        0
    }

    fn input_at(&self, _index: usize) -> AnyHandle {
        panic!("RecorderNode has no inputs")
    }

    fn output_at(&self, _index: usize) -> AnyHandle {
        panic!("RecorderNode has no outputs")
    }
}

/// An updater that runs updates synchronously but asks the executor for
/// reactive sleep, as a worker-pool updater would.
struct ReactiveUpdater {
    inner: SingleThreadedNodeUpdater,
}

impl NodeUpdater for ReactiveUpdater {
    fn update(&mut self, node: (NodeId, SharedNode), desc: Option<NodeDescription>) {
        self.inner.update(node, desc);
    }

    fn errors(&mut self) -> Vec<NodeUpdateError> {
        self.inner.errors()
    }

    fn sleep_mode(&self) -> SleepMode {
        SleepMode::Reactive
    }
}

/// A node that emits one value through an observed output and then requests
/// cancellation; by the time the executor goes to sleep, the wake token is
/// already waiting for it.
struct SendAndCancelNode {
    output: Output<i32>,
    controller: Arc<Mutex<ExecutionController>>,
    fired: bool,
}

impl Node for SendAndCancelNode {
    fn on_update(&mut self) -> Result<(), UpdateError> {
        if !self.fired {
            self.fired = true;
            self.output.send(1).unwrap();
            self.controller.lock().unwrap().cancel();
        }
        Ok(())
    }
}

impl RuntimeConnectable for SendAndCancelNode {
    fn n_inputs(&self) -> usize {
        0
    }

    fn n_outputs(&self) -> usize {
        1
    }

    fn input_count(&self) -> usize {
        0
    }

    fn output_count(&self) -> usize {
        1
    }

    fn input_at(&self, _index: usize) -> AnyHandle {
        panic!("SendAndCancelNode has no inputs")
    }

    fn output_at(&self, _index: usize) -> AnyHandle {
        AnyHandle::of(self.output.clone())
    }
}

/// Two sources feed an add node once; the executor drives the graph until a
/// canceller stops it, and exactly one sum has arrived at the sink.
#[test]
fn single_add_through_executor() {
    let change_observer = ChangeObserver::new();
    let context = State::new(Context::new());

    let source_a = BasicNode::new("lhs", context.clone(), 30);
    let source_b = BasicNode::new("rhs", context.clone(), 12);
    let add: AddNode<i32, i32, i32> = AddNode::new("add", context, Value::Null);
    let sink = Edge::new();

    connect(source_a.output.clone(), add.input_1.clone());
    connect(source_b.output.clone(), add.input_2.clone());
    connect(add.output_1.clone(), sink.clone());

    let mut executor = StandardExecutor::new(change_observer);
    let controller = executor.controller();

    let mut flow = Flow::new_empty("flow_1", Version::new(1, 0, 0));
    flow.add_node(source_a);
    flow.add_node(source_b);
    flow.add_node(add);
    flow.add_node(CancelNode { controller, after: 3, count: 0 });

    let result = executor.run(
        flow,
        RoundRobinScheduler::new(),
        SingleThreadedNodeUpdater::new(None),
    );
    assert!(result.is_ok());
    assert_eq!(sink.next().unwrap(), 42);
    assert!(sink.next().is_err());
}

/// Fan-in and fan-out: Add1(1+2) and Add2(3+4) feed Add3, whose sum of sums
/// reaches the sink.
#[test]
fn fan_in_fan_out_yields_ten() {
    let context = State::new(Context::new());
    let mut add1: AddNode<i32, i32, i32> = AddNode::new("Add1", context.clone(), Value::Null);
    let mut add2: AddNode<i32, i32, i32> = AddNode::new("Add2", context.clone(), Value::Null);
    let mut add3: AddNode<i32, i32, i32> = AddNode::new("Add3", context, Value::Null);
    let sink = Edge::new();

    connect(add1.output_1.clone(), add3.input_1.clone());
    connect(add2.output_1.clone(), add3.input_2.clone());
    connect(add3.output_1.clone(), sink.clone());

    let _ = add1.input_1.send(1);
    let _ = add1.input_2.send(2);
    let _ = add2.input_1.send(3);
    let _ = add2.input_2.send(4);

    for _ in 0..3 {
        let _ = add1.on_update();
        let _ = add2.on_update();
        let _ = add3.on_update();
    }

    assert_eq!(sink.next().unwrap(), 10);
}

/// Failing updates surface from `run` as one collection whose entries carry
/// the offending node ids and the descriptions the flow has for them.
#[test]
fn update_errors_surface_with_ids_and_descriptions() {
    let change_observer = ChangeObserver::new();
    let n1 = FailNode::new(Some(&change_observer));
    let n2 = FailNode::new(Some(&change_observer));

    let mut flow = Flow::new_empty("flow_1", Version::new(1, 0, 0));
    flow.add_node(n1);
    flow.add_node_with_id_and_desc(
        n2,
        5,
        NodeDescription {
            name: "Sad Node".into(),
            description: "Not doing much".into(),
            kind: "ErrNode".into(),
        },
    );

    let mut executor = StandardExecutor::new(change_observer);
    let result = executor.run(
        flow,
        RoundRobinScheduler::new(),
        SingleThreadedNodeUpdater::new(None),
    );
    match result {
        Err(ExecutionError::UpdateErrorCollection { errors }) => {
            assert_eq!(errors.len(), 2);
            assert_eq!(errors[0].node_id, Some(1));
            assert_eq!(errors[1].node_id, Some(5));
            let d0 = errors[0].node_desc.as_ref().expect("first entry enriched");
            assert_eq!(d0.name, "");
            let d1 = errors[1].node_desc.as_ref().expect("second entry enriched");
            assert_eq!(d1.name, "Sad Node");
            assert_eq!(d1.description, "Not doing much");
            assert_eq!(d1.kind, "ErrNode");
        }
        _ => panic!("expected an update error collection"),
    }
}

/// Cancellation reaches an executor that sleeps reactively: the wake token
/// deposited by the node's send breaks the sleep, and the run returns.
#[test]
fn cancellation_wakes_reactive_sleep() {
    let change_observer = ChangeObserver::new();
    let sink = Edge::new();
    let output = Output::new(Some(&change_observer));
    connect(output.clone(), sink.clone());

    let mut executor = StandardExecutor::new(change_observer);
    let controller = executor.controller();

    let mut flow = Flow::new_empty("flow_1", Version::new(1, 0, 0));
    flow.add_node(SendAndCancelNode { output, controller, fired: false });

    let updater = ReactiveUpdater { inner: SingleThreadedNodeUpdater::new(None) };
    let result = executor.run(flow, RoundRobinScheduler::new(), updater);
    assert!(result.is_ok());
    assert_eq!(sink.next().unwrap(), 1);
}

/// For a participating node the call order is: init, ready, updates,
/// shutdown.
#[test]
fn lifecycle_order_is_kept() {
    let change_observer = ChangeObserver::new();
    let log = Arc::new(Mutex::new(Vec::new()));

    let mut executor = StandardExecutor::new(change_observer);
    let controller = executor.controller();

    let mut flow = Flow::new_empty("flow_1", Version::new(1, 0, 0));
    flow.add_node(RecorderNode {
        log: log.clone(),
        controller: Some(controller),
        err_on_init: false,
    });

    let result = executor.run(
        flow,
        RoundRobinScheduler::new(),
        SingleThreadedNodeUpdater::new(None),
    );
    assert!(result.is_ok());

    let seen = log.lock().unwrap().clone();
    assert!(seen.len() >= 4);
    assert_eq!(seen[0], "init");
    assert_eq!(seen[1], "ready");
    assert_eq!(seen[seen.len() - 1], "shutdown");
    for entry in &seen[2..seen.len() - 1] {
        assert_eq!(*entry, "update");
    }
}

/// A failing init aborts the run before ready, update and shutdown.
#[test]
fn init_failure_skips_the_rest_of_the_lifecycle() {
    let change_observer = ChangeObserver::new();
    let log = Arc::new(Mutex::new(Vec::new()));

    let mut executor = StandardExecutor::new(change_observer);

    let mut flow = Flow::new_empty("flow_1", Version::new(1, 0, 0));
    flow.add_node(RecorderNode { log: log.clone(), controller: None, err_on_init: true });

    let result = executor.run(
        flow,
        RoundRobinScheduler::new(),
        SingleThreadedNodeUpdater::new(None),
    );
    match result {
        Err(ExecutionError::Lifecycle { source }) => {
            assert_eq!(source.node_id(), 1);
        }
        _ => panic!("expected a lifecycle error"),
    }
    let seen = log.lock().unwrap().clone();
    assert_eq!(seen, vec!["init"]);
}

/// A cancellation observed before the first epoch leaves update out
/// entirely, while init, ready and shutdown still run.
#[test]
fn cancellation_before_run_skips_updates() {
    let change_observer = ChangeObserver::new();
    let log = Arc::new(Mutex::new(Vec::new()));

    let mut executor = StandardExecutor::new(change_observer);
    let controller = executor.controller();
    controller.lock().unwrap().cancel();

    let mut flow = Flow::new_empty("flow_1", Version::new(1, 0, 0));
    flow.add_node(RecorderNode { log: log.clone(), controller: None, err_on_init: false });

    let result = executor.run(
        flow,
        RoundRobinScheduler::new(),
        SingleThreadedNodeUpdater::new(None),
    );
    assert!(result.is_ok());
    let seen = log.lock().unwrap().clone();
    assert_eq!(seen, vec!["init", "ready", "shutdown"]);
}

/// Two nodes whose init hooks fail: the run ends in an error instead of
/// entering the epoch loop.
#[test]
fn test_error_behavior() {
    let change_observer = ChangeObserver::new();

    let log = Arc::new(Mutex::new(Vec::new()));
    let n1 = RecorderNode { log: log.clone(), controller: None, err_on_init: true };
    let n2 = RecorderNode { log: log.clone(), controller: None, err_on_init: true };
    let mut flow = Flow::new_empty("flow_1", Version::new(1, 0, 0));

    flow.add_node(n1);
    flow.add_node(n2);

    let mut ex = StandardExecutor::new(change_observer);

    match ex.run(
        flow,
        RoundRobinScheduler::new(),
        SingleThreadedNodeUpdater::new(None),
    ) {
        Ok(_) => panic!("expected the run to fail"),
        Err(err) => println!("Error: {:?}", err),
    }
}

/// A ready hook that fails surfaces as a lifecycle error naming the node.
#[test]
fn ready_failure_surfaces_as_lifecycle_error() {
    let change_observer = ChangeObserver::new();
    let context = State::new(Context::new());

    let mut flow = Flow::new_empty("flow_1", Version::new(1, 0, 0));
    // An unbound source fails its ready hook.
    flow.add_node(BasicNode::new("loose", context, 1));

    let mut executor = StandardExecutor::new(change_observer);
    let result = executor.run(
        flow,
        RoundRobinScheduler::new(),
        SingleThreadedNodeUpdater::new(None),
    );
    match result {
        Err(ExecutionError::Lifecycle { source }) => {
            assert_eq!(source.node_id(), 1);
        }
        _ => panic!("expected a lifecycle error"),
    }
}

/// The executor phases carry their names.
#[test]
fn execution_state_labels() {
    assert_eq!(ExecutionState::Ready.label(), "Ready");
    assert_eq!(ExecutionState::Sleeping.label(), "Sleeping");
    assert_eq!(ExecutionState::Running.label(), "Running");
    assert_eq!(ExecutorState::Running.label(), "Running");
}

/// One hundred preloaded pairs, each summing to one hundred, all delivered
/// in order once the executor has had enough epochs.
#[test]
fn hundred_pairs_through_executor() {
    let change_observer = ChangeObserver::new();
    let context = State::new(Context::new());

    let add: AddNode<i32, i32, i32> = AddNode::new("add", context, Value::Null);
    let sink = Edge::new();
    connect(add.output_1.clone(), sink.clone());
    (0..100).for_each(|int| {
        let _ = add.input_1.send(int);
    });
    (0..101).rev().for_each(|int| {
        let _ = add.input_2.send(int);
    });

    let mut executor = StandardExecutor::new(change_observer);
    let controller = executor.controller();

    let mut flow = Flow::new_empty("flow_1", Version::new(1, 0, 0));
    flow.add_node(add);
    flow.add_node(CancelNode { controller, after: 250, count: 0 });

    let result = executor.run(
        flow,
        RoundRobinScheduler::new(),
        SingleThreadedNodeUpdater::new(None),
    );
    assert!(result.is_ok());

    let mut actual = vec![];
    for _ in 0..100 {
        actual.push(sink.next().unwrap());
    }
    assert_eq!(actual, vec![100; 100]);
    assert!(sink.next().is_err());
}
