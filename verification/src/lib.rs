//! An in-process broadcast (publish/subscribe) engine.
//!
//! A [`Publisher`](publisher::Publisher) fans messages out to independently
//! registered subscribers, each consuming from its own unbounded FIFO queue.
//! Subscribers either run a long-lived dispatch loop over an
//! [`EventProcessor`](processor::EventProcessor), or hand each message to a
//! callback returning a [`Command`](message::Command) that says whether to
//! keep going.

pub mod callback;
pub mod channel;
pub mod message;
pub mod model;
pub mod processor;
pub mod publisher;

pub use callback::CallbackOutcome;
pub use channel::Poll;
pub use message::Command;
pub use message::Event;
pub use processor::EventProcessor;
pub use processor::ListenOutcome;
pub use publisher::Publisher;
