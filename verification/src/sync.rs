//! Shared-state primitives used across the engine.
//!
//! The engine moves values between handles that may be shared by several
//! owners (an output and its clones, an executor and its controller handle).
//! That sharing is carried by `std::sync` channels, mutexes and `Arc`s, which
//! sit behind the small trusted wrappers collected here.  Because the state
//! behind such a handle is shared, none of these wrappers can promise what a
//! later read will see; their contracts state only what holds of every
//! outcome, and all engine logic above them is verified against that.

use vstd::prelude::*;

verus! {

#[verifier::external_type_specification]
#[verifier::external_body]
#[verifier::reject_recursive_types(T)]
pub struct ExMutex<T: ?Sized>(std::sync::Mutex<T>);

#[verifier::external_type_specification]
#[verifier::external_body]
#[verifier::reject_recursive_types(T)]
pub struct ExSender<T>(std::sync::mpsc::Sender<T>);

#[verifier::external_type_specification]
#[verifier::external_body]
#[verifier::reject_recursive_types(T)]
pub struct ExReceiver<T>(std::sync::mpsc::Receiver<T>);

/// Outcome of a non-blocking receive on a channel.
pub enum Polled<T> {
    /// A value was waiting in the queue.
    Value(T),
    /// The queue is momentarily empty but senders are still alive.
    Empty,
    /// The queue is empty and every sender is gone.
    Closed,
}

/// Relies on std::sync::mpsc::channel: creates a connected sender/receiver pair.
#[verifier::external_body]
pub(crate) fn channel<T>() -> (r: (std::sync::mpsc::Sender<T>, std::sync::mpsc::Receiver<T>)) {
    std::sync::mpsc::channel()
}

/// Relies on std::sync::mpsc::Sender::clone: the clone feeds the same queue.
#[verifier::external_body]
pub(crate) fn sender_clone<T>(s: &std::sync::mpsc::Sender<T>) -> (r: std::sync::mpsc::Sender<T>) {
    s.clone()
}

/// Relies on std::sync::mpsc::Sender::send: enqueues the value, or hands it
/// back unchanged when the receiver is gone (std's send error carries the
/// unsent value).
#[verifier::external_body]
pub(crate) fn channel_send<T>(s: &std::sync::mpsc::Sender<T>, v: T) -> (r: Result<(), T>)
    ensures
        r matches Err(w) ==> w == v,
{
    match s.send(v) {
        Ok(()) => Ok(()),
        Err(e) => Err(e.0),
    }
}

/// Relies on std::sync::mpsc::Receiver::recv: blocks until a value arrives or
/// every sender is gone.
#[verifier::external_body]
pub(crate) fn channel_recv<T>(r: &std::sync::mpsc::Receiver<T>) -> (res: Result<T, ()>) {
    match r.recv() {
        Ok(v) => Ok(v),
        Err(_) => Err(()),
    }
}

/// Relies on std::sync::mpsc::Receiver::try_recv: never blocks.
#[verifier::external_body]
pub(crate) fn channel_try_recv<T>(r: &std::sync::mpsc::Receiver<T>) -> (res: Polled<T>) {
    match r.try_recv() {
        Ok(v) => Polled::Value(v),
        Err(std::sync::mpsc::TryRecvError::Empty) => Polled::Empty,
        Err(std::sync::mpsc::TryRecvError::Disconnected) => Polled::Closed,
    }
}

/// Relies on std::sync::mpsc::Receiver::recv_timeout: returns once a value
/// arrives or once the given number of milliseconds has passed.  Used as a
/// pacing pause on a channel that never carries data.
#[verifier::external_body]
pub(crate) fn channel_recv_timeout_ms<T>(r: &std::sync::mpsc::Receiver<T>, ms: u64) {
    let _ = r.recv_timeout(core::time::Duration::from_millis(ms));
}

/// Relies on std::collections::HashMap::into_iter: hands the owned entries
/// out as a vector.  The order is the hash map's own and is left unspecified;
/// the entries are exactly the map's, each key once.
#[verifier::external_body]
pub(crate) fn map_entries<K, V>(m: std::collections::HashMap<K, V>) -> (r: Vec<(K, V)>)
    ensures
        r@.len() == m@.dom().len(),
        forall|i: int|
            0 <= i < r@.len() ==> #[trigger] m@.contains_key(r@[i].0) && m@[r@[i].0] == r@[i].1,
        forall|i: int, j: int| 0 <= i < j < r@.len() ==> r@[i].0 != r@[j].0,
        forall|k: K| #[trigger] m@.contains_key(k) ==> exists|i: int|
            0 <= i < r@.len() && r@[i].0 == k,
{
    m.into_iter().collect()
}

/// Relies on std::sync::Mutex::new (with std::sync::Arc::new): places a value
/// under a fresh shared lock.
#[verifier::external_body]
pub(crate) fn new_shared<T>(v: T) -> (r: std::sync::Arc<std::sync::Mutex<T>>) {
    std::sync::Arc::new(std::sync::Mutex::new(v))
}

/// Relies on std::sync::Arc::clone: the clone is a handle on the very same
/// lock and value.
#[verifier::external_body]
pub(crate) fn share<T: ?Sized>(
    a: &std::sync::Arc<std::sync::Mutex<T>>,
) -> (r: std::sync::Arc<std::sync::Mutex<T>>)
    ensures
        r == *a,
{
    std::sync::Arc::clone(a)
}

} // verus!
