use vstd::prelude::*;

use crate::sync::{channel, channel_recv, channel_try_recv, new_shared, Polled};

verus! {

/// Carrier for errors raised inside node implementations.  Only carried
/// through the engine, never inspected by it.
#[verifier::external_type_specification]
#[verifier::external_body]
pub struct ExAnyhowError(anyhow::Error);

/// A type-erased, reference-counted value.
///
/// Nodes hand their inputs and outputs out by index as opaque handles which
/// the caller casts back to the concrete endpoint type.  The handle wraps
/// `std::rc::Rc<dyn core::any::Any>`, which Verus cannot model, so the whole
/// struct is opaque and its two methods are trusted.
#[verifier::external_body]
pub struct AnyHandle {
    inner: std::rc::Rc<dyn core::any::Any>,
}

impl AnyHandle {
    /// Relies on std::rc::Rc::new: wraps a value for type-erased hand-out.
    #[verifier::external_body]
    pub fn of<T: 'static>(v: T) -> Self {
        AnyHandle { inner: std::rc::Rc::new(v) }
    }

    /// Relies on std::rc::Rc::downcast: returns the value when and only when
    /// it was wrapped as this exact type.
    #[verifier::external_body]
    pub fn downcast<T: 'static>(&self) -> Option<std::rc::Rc<T>> {
        std::rc::Rc::clone(&self.inner).downcast::<T>().ok()
    }
}

/// A type-erased value that may be shared across threads, as stored in a
/// [`Context`].  The wrapped `std::sync::Arc<dyn core::any::Any>` is beyond
/// Verus's model, so the struct is opaque and its two methods are trusted.
#[verifier::external_body]
pub struct SharedAny {
    inner: std::sync::Arc<dyn core::any::Any + Send + Sync>,
}

impl SharedAny {
    /// Relies on std::sync::Arc::new: wraps a value for type-erased sharing.
    #[verifier::external_body]
    pub fn of<T: Send + Sync + 'static>(v: T) -> Self {
        SharedAny { inner: std::sync::Arc::new(v) }
    }

    /// Relies on std::sync::Arc::downcast: returns the value when and only
    /// when it was wrapped as this exact type.
    #[verifier::external_body]
    pub fn downcast<T: Send + Sync + 'static>(&self) -> Option<std::sync::Arc<T>> {
        std::sync::Arc::clone(&self.inner).downcast::<T>().ok()
    }
}

/// A node can take a shared reference to a [`Context`] instance.
/// There exists a single context for all nodes that can be accessed via its
/// lock.  It can be used for sharing instances between nodes.
pub struct Context {
    /// A generic key-value store for instance sharing across nodes.
    pub properties: std::collections::HashMap<String, SharedAny>,
}

impl Context {
    pub fn new() -> (r: Self)
        ensures
            r.properties@.len() == 0,
    {
        Self { properties: std::collections::HashMap::new() }
    }
}

/// Shared single-writer ownership of a value: several holders, one of which
/// locks the value for the duration of an access.
#[verifier::reject_recursive_types(T)]
pub struct State<T>(pub std::sync::Arc<std::sync::Mutex<T>>);

impl<T> State<T> {
    pub fn new(v: T) -> Self {
        State(new_shared(v))
    }
}

impl<T> Clone for State<T> {
    /// The clone shares the same lock and value.
    fn clone(&self) -> Self {
        State(crate::sync::share(&self.0))
    }
}

/// Node outputs take an object of this type in order to notify an observer
/// (usually a flow executor) that something was written to an output.
pub struct ChangeObserver {
    /// The notifier as a sender (held, cloned, by the outputs).
    pub notifier: std::sync::mpsc::Sender<bool>,

    /// The observer as a receiver (held by the executor).
    pub observer: std::sync::mpsc::Receiver<bool>,
}

/// Upper bound on how many queued wake tokens one wait coalesces; tokens past
/// the bound simply wake the next wait instead.
pub const WAKE_DRAIN_BOUND: u64 = 65536;

impl ChangeObserver {
    pub fn new() -> Self {
        let (sender, receiver) = channel();
        Self { notifier: sender, observer: receiver }
    }

    /// Blocks until at least one wake token arrives (or every notifier is
    /// gone), then drains queued tokens without blocking, so that one observed
    /// wake stands for any number of notifications.
    pub fn wait_for_changes(&self) {
        let _ = channel_recv(&self.observer);
        let mut budget: u64 = WAKE_DRAIN_BOUND;
        while budget > 0
            decreases budget,
        {
            budget = budget - 1;
            match channel_try_recv(&self.observer) {
                Polled::Value(_) => {},
                Polled::Empty => {
                    budget = 0;
                },
                Polled::Closed => {
                    budget = 0;
                },
            }
        }
    }
}

/// Trait that defines the interface of update controller mechanisms.
/// Update controllers are used to cancel long-running [`Node::on_update`]
/// methods.
pub trait UpdateController: Send {
    /// Called from outside (potentially from a different thread) to cancel a
    /// long-running [`Node::on_update`] execution.
    fn cancel(&mut self);
}

/// Trait that has to be implemented by any node.
/// Contains methods for each state in the lifecycle of a node.
pub trait Node: Send {
    /// This method is called for node initialization.
    fn on_init(&self) -> Result<(), InitError> {
        Ok(())
    }

    /// This method is called when all nodes in the flow are initialized.
    fn on_ready(&self) -> Result<(), ReadyError> {
        Ok(())
    }

    /// This method is called when flow execution ends.
    fn on_shutdown(&self) -> Result<(), ShutdownError> {
        Ok(())
    }

    /// This method is called by the executor dependent on its update strategy.
    fn on_update(&mut self) -> Result<(), UpdateError> {
        Ok(())
    }

    /// Some nodes might have a long-running task in their [`Node::on_update`]
    /// method.  In this case, this method can return an [`UpdateController`]
    /// instance which can be used for cancelling the update.
    fn update_controller(&self) -> Option<
        std::sync::Arc<std::sync::Mutex<Box<dyn UpdateController>>>,
    > {
        None
    }
}

#[derive(Debug)]
pub enum InitError {
    Other(anyhow::Error),
}

#[derive(Debug)]
pub enum ReadyError {
    Other(anyhow::Error),
}

#[derive(Debug)]
pub enum ShutdownError {
    Other(anyhow::Error),
}

#[derive(Debug)]
pub struct SequenceError {
    pub node: String,
    pub message: String,
}

/// An output write failed; the un-enqueued value is handed back to the
/// caller, so a failed send loses nothing.
#[derive(Debug)]
pub enum SendError<T> {
    /// No edge is bound to the output; the value comes back.
    Unbound(T),
    /// The receiving side of the bound edge is gone; the value comes back.
    Closed(T),
}

/// A non-blocking receive found no value; the two ways that happens are kept
/// apart, as the outcomes of [`Edge::next`](crate::nodes::connection::Edge::next).
#[derive(Debug)]
pub enum ReceiveError {
    /// The queue is momentarily empty but a producer is still alive.
    EmptyNow,
    /// The queue is empty and every producer is gone.
    Closed,
}

#[derive(Debug)]
pub enum UpdateError {
    SequenceError { message: String },
    ConnectError { message: String },
    SendError { message: String },
    RecvError { message: String },
    Other(anyhow::Error),
}

} // verus!
