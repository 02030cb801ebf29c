//! The callback subscriber: each message is handed to a supplied handler
//! whose returned [`Command`] says whether the subscriber keeps polling.

use crate::channel::Poll;
use crate::channel::poll_event;
use crate::message::Command;
use crate::message::Event;
use vstd::prelude::*;

verus! {

/// What one step of a callback subscriber's loop did.
#[derive(PartialEq, Debug)]
pub enum CallbackOutcome {
    /// The handler processed this message and answered `Start`; the loop
    /// goes on.
    Handled(Event),
    /// The handler processed this message and answered `Stop`; the loop is
    /// over, whatever is still queued.
    Stopped(Event),
    /// Nothing was waiting; the loop polls again.
    Idle,
    /// The queue is drained and every producer-end has been dropped; no
    /// message can ever arrive, so the loop is over.
    Disconnected,
}

/// The callback subscriber's decision on one poll result. A waiting message
/// is handed to the handler, and the handler's answer alone says whether the
/// loop goes on; an empty queue leaves the loop polling; permanent
/// disconnection ends the loop, rather than spinning on a queue that can
/// never fill again.
pub fn decide<F: Fn(Event) -> Command + Copy>(poll: Poll, process: F) -> (outcome:
    CallbackOutcome)
    requires
        forall|e: Event| #[trigger] call_requires(process, (e,)),
    ensures
        poll is Empty ==> outcome == CallbackOutcome::Idle,
        poll is Disconnected ==> outcome == CallbackOutcome::Disconnected,
        poll matches Poll::Message(e) ==> (outcome == CallbackOutcome::Handled(e) && call_ensures(
            process,
            (e,),
            Command::Start,
        )) || (outcome == CallbackOutcome::Stopped(e) && call_ensures(
            process,
            (e,),
            Command::Stop,
        )),
{
    match poll {
        Poll::Message(event) => {
            let taken = event.clone();
            match process(event) {
                Command::Start => CallbackOutcome::Handled(taken),
                Command::Stop => CallbackOutcome::Stopped(taken),
            }
        },
        Poll::Empty => CallbackOutcome::Idle,
        Poll::Disconnected => CallbackOutcome::Disconnected,
    }
}

/// One step of a callback subscriber's loop: poll the consumer-end once,
/// without blocking, and act on what came back as [`decide`] says. The
/// outcome carries the message processed and whether the handler's answer
/// ends the loop; on permanent disconnection the loop is ended too. The loop
/// itself is run by the party that owns the subscriber's thread.
pub fn callback_step<F: Fn(Event) -> Command + Copy>(
    receiver: &crossbeam_channel::Receiver<Event>,
    process: F,
) -> (outcome: CallbackOutcome)
    requires
        forall|e: Event| #[trigger] call_requires(process, (e,)),
    ensures
        outcome matches CallbackOutcome::Handled(e) ==> call_ensures(
            process,
            (e,),
            Command::Start,
        ),
        outcome matches CallbackOutcome::Stopped(e) ==> call_ensures(process, (e,), Command::Stop),
{
    let poll = poll_event(receiver);
    decide(poll, process)
}

} // verus!
