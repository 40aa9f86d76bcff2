use flowrs::connection::{connect, Edge, Output};
use flowrs::node::{ChangeObserver, ReceiveError, SendError};

/// A single producer's values are observed in send order, never reordered.
#[test]
fn edge_is_fifo_for_one_producer() {
    let edge: Edge<u32> = Edge::new();
    let producer = edge.clone();
    producer.send(1).unwrap();
    producer.send(2).unwrap();
    producer.send(3).unwrap();
    assert_eq!(edge.next().unwrap(), 1);
    assert_eq!(edge.next().unwrap(), 2);
    assert_eq!(edge.next().unwrap(), 3);
    // The drained queue reports itself as momentarily empty, not closed:
    // the edge itself keeps a producer side, so its channel never closes
    // while the edge is alive.
    assert!(matches!(edge.next(), Err(ReceiveError::EmptyNow)));
    drop(producer);
    assert!(matches!(edge.next(), Err(ReceiveError::EmptyNow)));
}

/// An unbound output swallows nothing silently: the failed send hands the
/// un-enqueued value back to the caller.
#[test]
fn unbound_output_send_returns_the_value() {
    let mut out: Output<u32> = Output::new(None);
    match out.send(5) {
        Err(SendError::Unbound(v)) => assert_eq!(v, 5),
        _ => panic!("expected the value back from the unbound output"),
    }
}

/// A send into an edge whose consumer is gone hands the value back too.
#[test]
fn closed_edge_send_returns_the_value() {
    let edge: Edge<u32> = Edge::new();
    let producer = edge.clone();
    drop(edge);
    match producer.send(7) {
        Err(SendError::Closed(v)) => assert_eq!(v, 7),
        _ => panic!("expected the value back from the closed edge"),
    }
}

/// Binding any clone of an output binds them all.
#[test]
fn output_clones_share_their_binding() {
    let mut out: Output<u32> = Output::new(None);
    let clone = out.clone();
    let edge = Edge::new();
    connect(clone, edge.clone());
    out.send(9).unwrap();
    assert_eq!(edge.next().unwrap(), 9);
}

/// A value sent through an observed output deposits a wake token, so a
/// wait that begins afterwards returns promptly instead of blocking.
#[test]
fn wake_deposited_before_wait_is_not_lost() {
    let observer = ChangeObserver::new();
    let mut out: Output<u32> = Output::new(Some(&observer));
    let edge = Edge::new();
    connect(out.clone(), edge.clone());
    out.send(11).unwrap();
    // Would block forever (and fail the test harness) if the token were lost.
    observer.wait_for_changes();
    assert_eq!(edge.next().unwrap(), 11);
}

/// Notifications coalesce: many sends still take one wait to observe, and
/// the pending tokens are drained by it.
#[test]
fn wake_tokens_coalesce() {
    let observer = ChangeObserver::new();
    let mut out: Output<u32> = Output::new(Some(&observer));
    let edge = Edge::new();
    connect(out.clone(), edge.clone());
    for i in 0..10 {
        out.send(i).unwrap();
    }
    observer.wait_for_changes();
    for i in 0..10 {
        assert_eq!(edge.next().unwrap(), i);
    }
}

/// Rebinding replaces the prior target.
#[test]
fn rebinding_replaces_target() {
    let mut out: Output<u32> = Output::new(None);
    let first = Edge::new();
    let second = Edge::new();
    out.set(first.clone());
    out.set(second.clone());
    out.send(4).unwrap();
    assert!(first.next().is_err());
    assert_eq!(second.next().unwrap(), 4);
}
