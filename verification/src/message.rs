//! The messages that the broadcaster carries and the signal a callback
//! handler returns.

use vstd::prelude::*;

verus! {

/// A broadcast message: a closed set of kinds, each carrying a payload
/// string. Messages have no identity beyond structural equality; they are
/// created at publish time, consumed once per subscriber, then discarded.
#[derive(PartialEq, Debug)]
pub enum Event {
    Pass(String),
    Fail(String),
    Continue(String),
    ProcessingFinished(String),
}

/// The two-valued signal a callback handler returns: keep processing, or
/// terminate the handler's loop.
#[derive(Clone, PartialEq, Debug)]
pub enum Command {
    Start,
    Stop,
}

/// A terminal message ends a listener's dispatch loop when it is received.
pub open spec fn is_terminal(e: Event) -> bool {
    e is ProcessingFinished
}

impl Clone for Event {
    /// A clone is equal to the original; publishing relies on this to hand
    /// every subscriber the same message value.
    fn clone(&self) -> (r: Self)
        ensures
            r == *self,
    {
        match self {
            Event::Pass(s) => Event::Pass(s.clone()),
            Event::Fail(s) => Event::Fail(s.clone()),
            Event::Continue(s) => Event::Continue(s.clone()),
            Event::ProcessingFinished(s) => Event::ProcessingFinished(s.clone()),
        }
    }
}

} // verus!
