//! The long-lived subscriber: a worker bound to one consumer-end that
//! dispatches messages by kind and ends its loop on the terminal kind.

use crate::channel::Poll;
use crate::channel::poll_event;
use crate::message::Event;
use crate::message::is_terminal;
use crate::publisher::Publisher;
use vstd::prelude::*;

verus! {

broadcast use vstd::string::group_string_axioms;

/// What one step of a listener's loop did.
#[derive(PartialEq, Debug)]
pub enum ListenOutcome {
    /// A non-terminal message was received and recorded; the loop goes on.
    Received(Event),
    /// The terminal message was received and recorded; the loop is over.
    Finished(Event),
    /// Nothing was waiting; the loop polls again.
    Idle,
}

/// A long-lived subscriber. It owns an identifier, a handle on the
/// broadcaster (so it may itself publish), and the consumer-end of its own
/// queue; the messages it has dispatched are recorded in `processed`, in the
/// order they were taken from the queue.
#[derive(Clone)]
pub struct EventProcessor {
    pub id: String,
    pub publisher: Publisher,
    pub receiver: crossbeam_channel::Receiver<Event>,
    pub processed: Vec<Event>,
}

impl EventProcessor {
    /// The listener's decision on one poll result. A waiting message is
    /// recorded behind the earlier ones and ends the loop exactly when it is
    /// the terminal kind; an empty queue changes nothing; permanent
    /// disconnection is made visible through the normal dispatch path, as a
    /// synthesized, recorded `Fail` message that leaves the loop running —
    /// receiving the terminal kind is the only way the loop ends.
    pub fn dispatch(&mut self, poll: Poll) -> (outcome: ListenOutcome)
        ensures
            final(self).id == old(self).id,
            final(self).publisher == old(self).publisher,
            final(self).receiver == old(self).receiver,
            poll is Empty ==> outcome == ListenOutcome::Idle
                && final(self).processed == old(self).processed,
            poll matches Poll::Message(e)
                ==> final(self).processed@ == old(self).processed@.push(e)
                && outcome == (if is_terminal(e) {
                    ListenOutcome::Finished(e)
                } else {
                    ListenOutcome::Received(e)
                }),
            poll is Disconnected ==> (outcome matches ListenOutcome::Received(f)
                && f matches Event::Fail(s)
                && s@ == "Error receiving - Disconnected"@
                && final(self).processed@ == old(self).processed@.push(f)),
    {
        match poll {
            Poll::Empty => ListenOutcome::Idle,
            Poll::Message(event) => {
                let finished = match &event {
                    Event::ProcessingFinished(_) => true,
                    _ => false,
                };
                let taken = event.clone();
                self.processed.push(event);
                if finished {
                    ListenOutcome::Finished(taken)
                } else {
                    ListenOutcome::Received(taken)
                }
            },
            Poll::Disconnected => {
                let fail = Event::Fail("Error receiving - Disconnected".to_string());
                let taken = fail.clone();
                self.processed.push(fail);
                ListenOutcome::Received(taken)
            },
        }
    }

    /// One step of the listener's loop: poll the consumer-end once, without
    /// blocking, and dispatch what came back as [`dispatch`](Self::dispatch)
    /// says. Whatever message arrives is recorded behind the earlier ones,
    /// and the outcome is `Finished` exactly on the terminal kind, which
    /// alone ends the loop. The loop itself is run by the party that owns the
    /// worker's thread, since it must wait for however long the terminal
    /// message takes to arrive.
    pub fn listen_step(&mut self) -> (outcome: ListenOutcome)
        ensures
            final(self).id == old(self).id,
            final(self).publisher == old(self).publisher,
            final(self).receiver == old(self).receiver,
            outcome matches ListenOutcome::Received(e) ==> !is_terminal(e)
                && final(self).processed@ == old(self).processed@.push(e),
            outcome matches ListenOutcome::Finished(e) ==> is_terminal(e)
                && final(self).processed@ == old(self).processed@.push(e),
            outcome is Idle ==> final(self).processed@ == old(self).processed@,
    {
        let poll = poll_event(&self.receiver);
        self.dispatch(poll)
    }
}

} // verus!
