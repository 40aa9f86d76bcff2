use vstd::prelude::*;

use crate::nodes::node::{
    AnyHandle, ChangeObserver, InitError, Node, ReadyError, ReceiveError, SendError,
    ShutdownError, UpdateController, UpdateError,
};
use crate::sync::{channel, channel_send, channel_try_recv, new_shared, sender_clone, Polled};

verus! {

/// Relies on anyhow::Error::msg: builds an error value carrying the text.
#[verifier::external_body]
pub(crate) fn message_error(m: &str) -> anyhow::Error {
    anyhow::Error::msg(m.to_string())
}

/// An edge defines the connection between two nodes.
/// It is implemented using a [`std::sync::mpsc::channel`]: the producer side
/// can be cloned freely, the consumer side stays with the edge that was
/// created by [`Edge::new`].  Delivery keeps each producer's send order (the
/// channel's own first-in-first-out guarantee, exercised by the tests); the
/// interleaving between different producers is unspecified.
#[verifier::reject_recursive_types(I)]
pub struct Edge<I> {
    /// The producer side (technically there can be multiple producers).
    sender: std::sync::mpsc::Sender<I>,

    /// The consumer side (only a single consumer).  Consumers are optional:
    /// clones of an edge carry no consumer side.
    receiver: Option<std::sync::mpsc::Receiver<I>>,
}

impl<I> Edge<I> {
    /// True of the one edge value that may read from the underlying channel.
    pub closed spec fn is_consumer(&self) -> bool {
        self.receiver is Some
    }

    pub fn new() -> (r: Self)
        ensures
            r.is_consumer(),
    {
        let (sender, receiver) = channel();
        Self { sender, receiver: Some(receiver) }
    }

    /// Whether this edge value holds the consumer side of the channel.
    pub fn can_receive(&self) -> (r: bool)
        ensures
            r == self.is_consumer(),
    {
        self.receiver.is_some()
    }

    /// Enqueues the value for the consumer side.  Whether that side is still
    /// alive is shared state, so which case applies cannot be promised; but a
    /// failed send is value-preserving: the un-enqueued value comes back to
    /// the caller unchanged.
    pub fn send(&self, elem: I) -> (r: Result<(), SendError<I>>)
        ensures
            r matches Err(e) ==> (e matches SendError::Closed(v) && v == elem),
    {
        match channel_send(&self.sender, elem) {
            Ok(()) => Ok(()),
            Err(v) => Err(SendError::Closed(v)),
        }
    }

    /// Non-blocking receive, with three distinct outcomes: the next queued
    /// value if one is present, `EmptyNow` when the queue is momentarily
    /// empty but a producer lives, `Closed` when every producer is gone.
    /// Which of the three applies is decided by the shared channel.
    pub fn next(&self) -> Result<I, ReceiveError>
        requires
            self.is_consumer(),
    {
        match self.receiver {
            Some(ref receiver) => match channel_try_recv(receiver) {
                Polled::Value(v) => Ok(v),
                Polled::Empty => Err(ReceiveError::EmptyNow),
                Polled::Closed => Err(ReceiveError::Closed),
            },
            None => vstd::pervasive::unreached(),
        }
    }
}

impl<I> Clone for Edge<I> {
    /// A cloned edge feeds the same consumer but cannot itself read:
    /// the clone is a producer only.
    fn clone(&self) -> (r: Self)
        ensures
            !r.is_consumer(),
    {
        Self { sender: sender_clone(&self.sender), receiver: None }
    }
}

/// A node's input implemented as an [`Edge`] type.
pub type Input<I> = Edge<I>;

/// Outcome of a send through an output's shared edge slot.
pub(crate) enum SlotSend<T> {
    /// The value was enqueued for the bound edge's consumer.
    Delivered,
    /// No edge is bound; the value is handed back.
    Unbound(T),
    /// An edge is bound but its consumer is gone; the value is handed back.
    Disconnected(T),
}

/// Relies on std::sync::Mutex::lock: replaces the edge held in the shared
/// slot (recovering the slot when a previous holder panicked).
#[verifier::external_body]
pub(crate) fn edge_slot_store<T>(
    slot: &std::sync::Arc<std::sync::Mutex<Option<Edge<T>>>>,
    e: Edge<T>,
) {
    let mut guard = match slot.lock() {
        Ok(g) => g,
        Err(poisoned) => poisoned.into_inner(),
    };
    *guard = Some(e);
}

/// Relies on std::sync::Mutex::lock and std::sync::mpsc::Sender::send:
/// enqueues the value for the bound edge, or hands it back unchanged (std's
/// send error carries the unsent value).
#[verifier::external_body]
pub(crate) fn edge_slot_send<T>(
    slot: &std::sync::Arc<std::sync::Mutex<Option<Edge<T>>>>,
    v: T,
) -> (r: SlotSend<T>)
    ensures
        r matches SlotSend::Unbound(w) ==> w == v,
        r matches SlotSend::Disconnected(w) ==> w == v,
{
    let guard = match slot.lock() {
        Ok(g) => g,
        Err(poisoned) => poisoned.into_inner(),
    };
    match guard.as_ref() {
        None => SlotSend::Unbound(v),
        Some(edge) => match edge.sender.send(v) {
            Ok(()) => SlotSend::Delivered,
            Err(e) => SlotSend::Disconnected(e.0),
        },
    }
}

/// A node's output.
///
/// The (optional) connection to another node's input sits behind a lock that
/// all clones of the output share, so that binding any clone binds them all.
#[verifier::reject_recursive_types(T)]
pub struct Output<T> {
    /// The (optional) connection to another node's input.
    edge: std::sync::Arc<std::sync::Mutex<Option<Edge<T>>>>,

    /// Whenever something is written to the output (and a change notifier
    /// exists), a change notification is sent.
    change_notifier: Option<std::sync::mpsc::Sender<bool>>,
}

impl<O> Output<O> {
    /// True when a wake token will be posted after each delivered value.
    pub closed spec fn notifies(&self) -> bool {
        self.change_notifier is Some
    }

    /// The shared slot that holds this output's binding.
    pub closed spec fn binding(&self) -> std::sync::Arc<std::sync::Mutex<Option<Edge<O>>>> {
        self.edge
    }

    pub fn new(change_observer: Option<&ChangeObserver>) -> (r: Self)
        ensures
            r.notifies() <==> change_observer is Some,
    {
        let change_notifier = match change_observer {
            Some(observer) => Some(sender_clone(&observer.notifier)),
            None => None,
        };
        Self { edge: new_shared(None), change_notifier }
    }

    /// Rebinds this output (and every clone of it is detached: the slot is
    /// replaced by a fresh one holding the given edge).
    pub fn set_sender(self, edge: Edge<O>) -> (r: Self)
        ensures
            r.notifies() <==> self.notifies(),
    {
        Self { edge: new_shared(Some(edge)), change_notifier: self.change_notifier }
    }

    pub fn set_observer(self, change_observer: &ChangeObserver) -> (r: Self)
        ensures
            r.notifies(),
            r.binding() == self.binding(),
    {
        Self { edge: self.edge, change_notifier: Some(sender_clone(&change_observer.notifier)) }
    }

    /// Sends a value into the bound edge.  On success a wake token is posted
    /// to the notifier, if one is present; a failed send posts nothing and is
    /// value-preserving: the un-enqueued value comes back to the caller
    /// unchanged.  Which case applies depends on the shared binding, so the
    /// contract fixes the failure payload and that the output itself is left
    /// unchanged.
    pub fn send(&mut self, elem: O) -> (r: Result<(), SendError<O>>)
        ensures
            *final(self) == *old(self),
            r matches Err(SendError::Unbound(v)) ==> v == elem,
            r matches Err(SendError::Closed(v)) ==> v == elem,
    {
        match edge_slot_send(&self.edge, elem) {
            SlotSend::Delivered => {
                match self.change_notifier {
                    Some(ref cn) => {
                        let _ = channel_send(cn, true);
                    },
                    None => {},
                }
                Ok(())
            },
            SlotSend::Unbound(v) => Err(SendError::Unbound(v)),
            SlotSend::Disconnected(v) => Err(SendError::Closed(v)),
        }
    }

    /// Binds the given edge in the shared slot, for this output and all of
    /// its clones.
    pub fn set(&mut self, edge: Edge<O>)
        ensures
            *final(self) == *old(self),
    {
        edge_slot_store(&self.edge, edge);
    }
}

impl<T> Clone for Output<T> {
    /// The clone shares the edge binding: connecting either connects both.
    fn clone(&self) -> (r: Self)
        ensures
            r.notifies() <==> self.notifies(),
    {
        let change_notifier = match self.change_notifier {
            Some(ref cn) => Some(sender_clone(cn)),
            None => None,
        };
        Self { edge: crate::sync::share(&self.edge), change_notifier }
    }
}

/// Binds an output to an input: subsequent sends through `lhs` (or any clone
/// of it) enqueue into `rhs`.
pub fn connect<I: Clone>(lhs: Output<I>, rhs: Input<I>) {
    let mut out = lhs;
    out.set(rhs);
}

/// An error raised while resolving or binding endpoints at runtime.
pub enum ConnectError<T> {
    /// The handle found at the index could not be cast back to the expected
    /// endpoint type.
    CastFailed { message: String },
    /// No node is registered under the given name.
    MissingNode { message: String },
    /// A value could not be handed over and is returned to the caller.
    Unsent(T),
}

/// This trait is used for accessing a node's inputs and outputs by index at
/// runtime.  Indices are contiguous, starting at 0, and stable for the
/// lifetime of the node.
pub trait RuntimeConnectable {
    /// How many inputs this node exposes.
    spec fn n_inputs(&self) -> usize;

    /// How many outputs this node exposes.
    spec fn n_outputs(&self) -> usize;

    /// The number of inputs, for bounds checks at runtime.
    fn input_count(&self) -> (r: usize)
        ensures
            r == self.n_inputs(),
    ;

    /// The number of outputs, for bounds checks at runtime.
    fn output_count(&self) -> (r: usize)
        ensures
            r == self.n_outputs(),
    ;

    fn input_at(&self, index: usize) -> AnyHandle
        requires
            index < self.n_inputs(),
    ;

    fn output_at(&self, index: usize) -> AnyHandle
        requires
            index < self.n_outputs(),
    ;
}

/// A [`Node`] that also implements the [`RuntimeConnectable`] trait: the full
/// runtime surface of a node, usable as a trait object.  Every type that
/// implements both traits implements this one through the blanket impl below.
pub trait RuntimeNode: Send {
    fn on_init(&self) -> Result<(), InitError>;

    fn on_ready(&self) -> Result<(), ReadyError>;

    fn on_shutdown(&self) -> Result<(), ShutdownError>;

    fn on_update(&mut self) -> Result<(), UpdateError>;

    fn update_controller(&self) -> Option<
        std::sync::Arc<std::sync::Mutex<Box<dyn UpdateController>>>,
    >;

    /// The input endpoint at the index, or `None` when the index is out of
    /// range.
    fn runtime_input_at(&self, index: usize) -> Option<AnyHandle>;

    /// The output endpoint at the index, or `None` when the index is out of
    /// range.
    fn runtime_output_at(&self, index: usize) -> Option<AnyHandle>;
}

impl<T: Node + RuntimeConnectable> RuntimeNode for T {
    fn on_init(&self) -> Result<(), InitError> {
        Node::on_init(self)
    }

    fn on_ready(&self) -> Result<(), ReadyError> {
        Node::on_ready(self)
    }

    fn on_shutdown(&self) -> Result<(), ShutdownError> {
        Node::on_shutdown(self)
    }

    fn on_update(&mut self) -> Result<(), UpdateError> {
        Node::on_update(self)
    }

    fn update_controller(&self) -> Option<
        std::sync::Arc<std::sync::Mutex<Box<dyn UpdateController>>>,
    > {
        Node::update_controller(self)
    }

    fn runtime_input_at(&self, index: usize) -> Option<AnyHandle> {
        if index < RuntimeConnectable::input_count(self) {
            Some(RuntimeConnectable::input_at(self, index))
        } else {
            None
        }
    }

    fn runtime_output_at(&self, index: usize) -> Option<AnyHandle> {
        if index < RuntimeConnectable::output_count(self) {
            Some(RuntimeConnectable::output_at(self, index))
        } else {
            None
        }
    }
}

/// A node shared between the flow that owns it and the updater that drives
/// it: single-writer exclusion under shared ownership.
pub type SharedNode = std::sync::Arc<std::sync::Mutex<Box<dyn RuntimeNode>>>;

/// Relies on std::sync::Arc::new and std::sync::Mutex::new: places a node
/// behind the shared exclusion wrapper.
#[verifier::external_body]
pub(crate) fn share_node<T: RuntimeNode + 'static>(node: T) -> (r: SharedNode) {
    let boxed: Box<dyn RuntimeNode> = Box::new(node);
    std::sync::Arc::new(std::sync::Mutex::new(boxed))
}

/// Relies on std::sync::Mutex::lock: runs the node's `on_init` hook under the
/// exclusion lock.  The result is the node implementation's own.
#[verifier::external_body]
pub(crate) fn node_on_init(n: &SharedNode) -> (r: Result<(), InitError>) {
    match n.lock() {
        Ok(g) => g.on_init(),
        Err(poisoned) => poisoned.into_inner().on_init(),
    }
}

/// Relies on std::sync::Mutex::lock: runs the node's `on_ready` hook under
/// the exclusion lock.
#[verifier::external_body]
pub(crate) fn node_on_ready(n: &SharedNode) -> (r: Result<(), ReadyError>) {
    match n.lock() {
        Ok(g) => g.on_ready(),
        Err(poisoned) => poisoned.into_inner().on_ready(),
    }
}

/// Relies on std::sync::Mutex::lock: runs the node's `on_shutdown` hook under
/// the exclusion lock.
#[verifier::external_body]
pub(crate) fn node_on_shutdown(n: &SharedNode) -> (r: Result<(), ShutdownError>) {
    match n.lock() {
        Ok(g) => g.on_shutdown(),
        Err(poisoned) => poisoned.into_inner().on_shutdown(),
    }
}

/// Relies on std::sync::Mutex::lock: runs the node's `on_update` step under
/// the exclusion lock, waiting for the lock if another holder has it.
#[verifier::external_body]
pub(crate) fn node_on_update(n: &SharedNode) -> (r: Result<(), UpdateError>) {
    match n.lock() {
        Ok(mut g) => g.on_update(),
        Err(poisoned) => poisoned.into_inner().on_update(),
    }
}

/// Relies on std::sync::Mutex::try_lock: runs the node's `on_update` step if
/// the exclusion lock is free, and reports `None` when another holder has it
/// (the update is then skipped, not queued).
#[verifier::external_body]
pub(crate) fn node_try_on_update(n: &SharedNode) -> (r: Option<Result<(), UpdateError>>) {
    match n.try_lock() {
        Ok(mut g) => Some(g.on_update()),
        Err(_) => None,
    }
}

/// Relies on std::sync::Mutex::lock: asks the node for its update controller.
#[verifier::external_body]
pub(crate) fn node_update_controller(n: &SharedNode) -> (r: Option<
    std::sync::Arc<std::sync::Mutex<Box<dyn UpdateController>>>,
>) {
    match n.lock() {
        Ok(g) => g.update_controller(),
        Err(poisoned) => poisoned.into_inner().update_controller(),
    }
}

/// Relies on std::sync::Mutex::lock: hands out the node's input endpoint at
/// the given index, or `None` when the index is out of range.
#[verifier::external_body]
pub(crate) fn node_input_at(n: &SharedNode, index: usize) -> (r: Option<AnyHandle>) {
    match n.lock() {
        Ok(g) => g.runtime_input_at(index),
        Err(poisoned) => poisoned.into_inner().runtime_input_at(index),
    }
}

/// Relies on std::sync::Mutex::lock: hands out the node's output endpoint at
/// the given index, or `None` when the index is out of range.
#[verifier::external_body]
pub(crate) fn node_output_at(n: &SharedNode, index: usize) -> (r: Option<AnyHandle>) {
    match n.lock() {
        Ok(g) => g.runtime_output_at(index),
        Err(poisoned) => poisoned.into_inner().runtime_output_at(index),
    }
}

/// Relies on std::sync::Mutex::lock: asks an update controller to cancel its
/// node's in-progress update.
#[verifier::external_body]
pub(crate) fn controller_cancel(
    c: &std::sync::Arc<std::sync::Mutex<Box<dyn UpdateController>>>,
) {
    match c.lock() {
        Ok(mut g) => g.cancel(),
        Err(poisoned) => poisoned.into_inner().cancel(),
    }
}

} // verus!
