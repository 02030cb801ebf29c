//! The mathematical model of the broadcast engine.
//!
//! A broadcaster's state is abstracted as the sequence of per-subscriber
//! delivery histories, one history per registered subscriber, in registration
//! order. [`apply_register`] and [`apply_publish`] say what one registration
//! and one fan-out do to that state; the lemmas below state the laws of the
//! engine over runs of such operations.

use crate::message::Event;
use crate::message::is_terminal;
use vstd::prelude::*;

verus! {

/// Registration appends a subscriber with an empty delivery history: a new
/// subscriber starts with no backlog.
pub open spec fn apply_register(s: Seq<Seq<Event>>) -> Seq<Seq<Event>> {
    s.push(Seq::empty())
}

/// Publishing appends the message to every subscriber's delivery history.
pub open spec fn apply_publish(s: Seq<Seq<Event>>, m: Event) -> Seq<Seq<Event>> {
    Seq::new(s.len(), |i: int| s[i].push(m))
}

/// One operation on a broadcaster: registering a subscriber, or publishing a
/// message to every registered subscriber.
pub enum Op {
    Register,
    Publish(Event),
}

/// The state after one operation.
pub open spec fn apply_op(s: Seq<Seq<Event>>, op: Op) -> Seq<Seq<Event>> {
    match op {
        Op::Register => apply_register(s),
        Op::Publish(m) => apply_publish(s, m),
    }
}

/// The state after a run of operations, applied in order.
pub open spec fn run_ops(s: Seq<Seq<Event>>, ops: Seq<Op>) -> Seq<Seq<Event>>
    decreases ops.len(),
{
    if ops.len() == 0 {
        s
    } else {
        run_ops(apply_op(s, ops[0]), ops.drop_first())
    }
}

/// The messages a run of operations publishes, in publish order.
pub open spec fn published_in(ops: Seq<Op>) -> Seq<Event>
    decreases ops.len(),
{
    if ops.len() == 0 {
        Seq::empty()
    } else {
        match ops[0] {
            Op::Register => published_in(ops.drop_first()),
            Op::Publish(m) => seq![m] + published_in(ops.drop_first()),
        }
    }
}

/// The sum of all subscribers' delivery history lengths: the total number of
/// deliveries the broadcaster has made.
pub open spec fn total_deliveries(s: Seq<Seq<Event>>) -> nat
    decreases s.len(),
{
    if s.len() == 0 {
        0
    } else {
        s[0].len() + total_deliveries(s.drop_first())
    }
}

/// Every subscriber receives every message published while it is registered,
/// in publish order, appended after what it already held: per-subscriber FIFO
/// delivery. In particular, a subscriber registered before the first publish
/// of a run observes exactly the run's messages, in order.
pub proof fn lemma_fifo_per_subscriber(s: Seq<Seq<Event>>, ops: Seq<Op>, k: int)
    requires
        0 <= k < s.len(),
    ensures
        run_ops(s, ops).len() >= s.len(),
        run_ops(s, ops)[k] == s[k] + published_in(ops),
    decreases ops.len(),
{
    if ops.len() == 0 {
        assert(s[k] + published_in(ops) =~= s[k]);
    } else {
        let s1 = apply_op(s, ops[0]);
        lemma_fifo_per_subscriber(s1, ops.drop_first(), k);
        match ops[0] {
            Op::Register => {
                assert(s1[k] == s[k]);
                assert(s[k] + published_in(ops) == s1[k] + published_in(ops.drop_first()));
            },
            Op::Publish(m) => {
                assert(s1[k] == s[k].push(m));
                assert(s[k] + (seq![m] + published_in(ops.drop_first())) =~= s[k].push(m)
                    + published_in(ops.drop_first()));
            },
        }
    }
}

/// A subscriber registered after some messages have been published never
/// observes those earlier messages: its final delivery history holds exactly
/// the messages published after its registration, whatever was published
/// before.
pub proof fn lemma_no_backlog(s: Seq<Seq<Event>>, ops: Seq<Op>)
    ensures
        run_ops(apply_register(s), ops)[s.len() as int] == published_in(ops),
{
    let s1 = apply_register(s);
    lemma_fifo_per_subscriber(s1, ops, s.len() as int);
    assert(s1[s.len() as int] + published_in(ops) =~= published_in(ops));
}

/// Publishing one message to `K` subscribers makes exactly `K` deliveries.
pub proof fn lemma_publish_delivery_count(s: Seq<Seq<Event>>, m: Event)
    ensures
        total_deliveries(apply_publish(s, m)) == total_deliveries(s) + s.len(),
    decreases s.len(),
{
    if s.len() == 0 {
    } else {
        lemma_publish_delivery_count(s.drop_first(), m);
        assert(apply_publish(s, m).drop_first() =~= apply_publish(s.drop_first(), m));
    }
}

/// Whether a run consists of publish operations only.
pub open spec fn all_publishes(ops: Seq<Op>) -> bool {
    forall|i: int| 0 <= i < ops.len() ==> ops[i] is Publish
}

/// Publishing `N` messages to `K` subscribers makes exactly `K * N`
/// deliveries in total.
pub proof fn lemma_total_deliveries(s: Seq<Seq<Event>>, ops: Seq<Op>)
    requires
        all_publishes(ops),
    ensures
        total_deliveries(run_ops(s, ops)) == total_deliveries(s) + s.len() * ops.len(),
    decreases ops.len(),
{
    if ops.len() == 0 {
    } else {
        let m = ops[0]->Publish_0;
        let s1 = apply_publish(s, m);
        lemma_publish_delivery_count(s, m);
        assert(all_publishes(ops.drop_first()));
        lemma_total_deliveries(s1, ops.drop_first());
        assert(s.len() * ops.len() == s.len() + s.len() * (ops.len() - 1)) by (nonlinear_arith);
    }
}

/// Of the messages queued for a listener, the listener consumes the prefix
/// up to and including the first terminal message; with no terminal message
/// queued it consumes them all and keeps waiting.
pub open spec fn listener_consumed(q: Seq<Event>) -> Seq<Event>
    decreases q.len(),
{
    if q.len() == 0 {
        Seq::empty()
    } else if is_terminal(q[0]) {
        seq![q[0]]
    } else {
        seq![q[0]] + listener_consumed(q.drop_first())
    }
}

/// A listener that receives a terminal message ends its loop there: nothing
/// queued after the first terminal message is consumed, however much there
/// is.
pub proof fn lemma_listener_stops_at_terminal(q: Seq<Event>, i: int)
    requires
        0 <= i < q.len(),
        is_terminal(q[i]),
        forall|j: int| 0 <= j < i ==> !is_terminal(q[j]),
    ensures
        listener_consumed(q) == q.take(i + 1),
    decreases i,
{
    if i == 0 {
        assert(listener_consumed(q) =~= q.take(1));
    } else {
        lemma_listener_stops_at_terminal(q.drop_first(), i - 1);
        assert(listener_consumed(q) == seq![q[0]] + q.drop_first().take(i));
        assert(seq![q[0]] + q.drop_first().take(i) =~= q.take(i + 1));
    }
}

/// Of the messages queued for a callback subscriber whose handler answers as
/// `h` does, the subscriber consumes the prefix up to and including the first
/// message on which the handler answers `Stop`.
pub open spec fn callback_consumed(q: Seq<Event>, h: spec_fn(Event) -> crate::message::Command) -> Seq<Event>
    decreases q.len(),
{
    if q.len() == 0 {
        Seq::empty()
    } else if h(q[0]) is Stop {
        seq![q[0]]
    } else {
        seq![q[0]] + callback_consumed(q.drop_first(), h)
    }
}

/// A callback subscriber whose handler answers `Stop` on a message ends its
/// loop right after that message, regardless of what is still queued behind
/// it.
pub proof fn lemma_callback_stops_at_stop(
    q: Seq<Event>,
    h: spec_fn(Event) -> crate::message::Command,
    i: int,
)
    requires
        0 <= i < q.len(),
        h(q[i]) is Stop,
        forall|j: int| 0 <= j < i ==> !(h(#[trigger] q[j]) is Stop),
    ensures
        callback_consumed(q, h) == q.take(i + 1),
    decreases i,
{
    if i == 0 {
        assert(callback_consumed(q, h) =~= q.take(1));
    } else {
        lemma_callback_stops_at_stop(q.drop_first(), h, i - 1);
        assert(callback_consumed(q, h) == seq![q[0]] + q.drop_first().take(i));
        assert(seq![q[0]] + q.drop_first().take(i) =~= q.take(i + 1));
    }
}

} // verus!
