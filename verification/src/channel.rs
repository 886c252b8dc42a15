//! The event channel: an unbounded, strictly FIFO, single-producer
//! single-consumer transport of mutation records, built on `std::sync::mpsc`.
//! Nothing is assumed about which records a poll returns or when a send fails;
//! the verified store states over its own ghost logs what holds of every
//! outcome.

use vstd::prelude::*;

use crate::log::Action;
use std::sync::mpsc::Receiver;
use std::sync::mpsc::Sender;
use std::sync::mpsc::TryRecvError;

verus! {

#[verifier::external_type_specification]
#[verifier::external_body]
#[verifier::reject_recursive_types(T)]
pub struct ExSender<T>(Sender<T>);

#[verifier::external_type_specification]
#[verifier::external_body]
#[verifier::reject_recursive_types(T)]
pub struct ExReceiver<T>(Receiver<T>);

/// The three outcomes of one non-blocking poll of the channel: a record was
/// queued, nothing is queued right now, or the producer is gone for good and
/// the queue is exhausted.
pub(crate) enum Polled<K, V> {
    Record(Action<K, V>),
    Empty,
    Closed,
}

/// Relies on std::sync::mpsc::channel: the returned handles are the producer
/// and consumer ends of one unbounded FIFO queue.
#[verifier::external_body]
pub(crate) fn action_channel<K, V>() -> (Sender<Action<K, V>>, Receiver<Action<K, V>>) {
    std::sync::mpsc::channel()
}

/// Relies on std::sync::mpsc::Sender::send: it queues the record without
/// blocking and returns Err exactly when the consumer end has been dropped.
#[verifier::external_body]
pub(crate) fn send_action<K, V>(tx: &Sender<Action<K, V>>, a: Action<K, V>) -> bool {
    tx.send(a).is_ok()
}

/// Relies on std::sync::mpsc::Receiver::try_recv: without blocking it yields
/// the queued records in the order they were sent, reports Empty while nothing
/// is queued, and reports Disconnected once the producer end has been dropped
/// and every queued record has been taken.
#[verifier::external_body]
pub(crate) fn poll_action<K, V>(rx: &Receiver<Action<K, V>>) -> Polled<K, V> {
    match rx.try_recv() {
        Ok(a) => Polled::Record(a),
        Err(TryRecvError::Empty) => Polled::Empty,
        Err(TryRecvError::Disconnected) => Polled::Closed,
    }
}

} // verus!
