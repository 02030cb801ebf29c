//! The queue primitive: an unbounded FIFO channel of `crossbeam_channel`,
//! taken on trust behind a small set of declarations and wrappers.
//!
//! A channel's contents live outside any one handle and change under the
//! hands of other threads, so nothing is promised here about which outcome a
//! poll or a send produces: the verified callers state what holds whatever
//! came back.

use crate::message::Event;
use vstd::prelude::*;

verus! {

/// Relies on `crossbeam_channel::Sender`: the writable half of a channel.
#[verifier::external_type_specification]
#[verifier::external_body]
#[verifier::reject_recursive_types(T)]
pub struct ExSender<T>(crossbeam_channel::Sender<T>);

/// Relies on `crossbeam_channel::Receiver`: the readable half of a channel.
#[verifier::external_type_specification]
#[verifier::external_body]
#[verifier::reject_recursive_types(T)]
pub struct ExReceiver<T>(crossbeam_channel::Receiver<T>);

/// Relies on `crossbeam_channel::unbounded`: creates a fresh queue of
/// unbounded capacity and returns its two halves. Both halves are opaque
/// values here, so no contract is stated.
pub assume_specification<T>[ crossbeam_channel::unbounded::<T> ]() -> (r: (
    crossbeam_channel::Sender<T>,
    crossbeam_channel::Receiver<T>,
));

/// Relies on `crossbeam_channel::Sender::clone`: another handle on the same
/// channel. The handle is opaque here, so no contract is stated.
pub assume_specification<T>[ <crossbeam_channel::Sender<T> as Clone>::clone ](
    sender: &crossbeam_channel::Sender<T>,
) -> crossbeam_channel::Sender<T>;

/// Relies on `crossbeam_channel::Receiver::clone`: another handle on the same
/// channel. The handle is opaque here, so no contract is stated.
pub assume_specification<T>[ <crossbeam_channel::Receiver<T> as Clone>::clone ](
    receiver: &crossbeam_channel::Receiver<T>,
) -> crossbeam_channel::Receiver<T>;

/// What one non-blocking poll of a consumer-end reports.
#[derive(Clone, PartialEq, Debug)]
pub enum Poll {
    /// A message was waiting and has been taken out of the queue.
    Message(Event),
    /// No message is waiting; transient, not an error.
    Empty,
    /// The queue is empty and every producer-end has been dropped; permanent.
    Disconnected,
}

/// Relies on `crossbeam_channel::Sender::send`: enqueues the message for the
/// receiving half, in FIFO order, and fails exactly when every receiver
/// handle has been dropped. Whether the consumer is still attached depends on
/// other threads, so no outcome is promised.
#[verifier::external_body]
pub(crate) fn send_event(sender: &crossbeam_channel::Sender<Event>, message: Event) -> (ok: bool) {
    sender.send(message).is_ok()
}

/// Relies on `crossbeam_channel::Receiver::try_recv`: takes the next queued
/// message without blocking, or reports an empty queue, or reports permanent
/// disconnection once the queue is drained and every sender handle has been
/// dropped. What is queued depends on other threads, so no outcome is
/// promised.
#[verifier::external_body]
pub(crate) fn poll_event(receiver: &crossbeam_channel::Receiver<Event>) -> (p: Poll) {
    match receiver.try_recv() {
        Ok(event) => Poll::Message(event),
        Err(crossbeam_channel::TryRecvError::Empty) => Poll::Empty,
        Err(crossbeam_channel::TryRecvError::Disconnected) => Poll::Disconnected,
    }
}

} // verus!
