//! The broadcaster: owns one producer-end per registered subscriber and fans
//! every published message out to all of them.

use crate::channel::send_event;
use crate::message::Event;
use crate::model::apply_publish;
use crate::model::apply_register;
use vstd::prelude::*;

verus! {

/// A strictly increasing map `keep` names, for each subscriber still present
/// after a publish, its place before the publish, and says that it received
/// the message on top of its earlier history.
pub open spec fn publish_keep(
    keep: Seq<int>,
    before: Seq<Seq<Event>>,
    after: Seq<Seq<Event>>,
    m: Event,
) -> bool {
    &&& keep.len() == after.len()
    &&& (forall|j: int| 0 <= j < keep.len() ==> 0 <= #[trigger] keep[j] < before.len())
    &&& (forall|j: int| 0 <= j && j + 1 < keep.len() ==> #[trigger] keep[j] < keep[j + 1])
    &&& (forall|j: int| 0 <= j < keep.len() ==> after[j] == before[#[trigger] keep[j]].push(m))
}

/// What one publish does to the delivery histories: some subscribers may be
/// pruned (their consumer-end was gone), the rest keep their order and each
/// receives the message.
pub open spec fn publish_outcome(
    before: Seq<Seq<Event>>,
    after: Seq<Seq<Event>>,
    m: Event,
) -> bool {
    exists|keep: Seq<int>| #[trigger] publish_keep(keep, before, after, m)
}

/// The publisher half of the broadcast engine. It holds one producer-end per
/// subscriber, in registration order; the sequence grows on registration and
/// shrinks only when a publish finds a subscriber's consumer-end dropped.
///
/// Its abstract state (the view) is the sequence of per-subscriber delivery
/// histories. A cloned handle copies the producer-end list rather than
/// sharing it: subscribers registered on one handle afterwards are not seen
/// by the other, a known limitation of this design.
#[derive(Clone)]
pub struct Publisher {
    senders: Vec<crossbeam_channel::Sender<Event>>,
    history: Ghost<Seq<Seq<Event>>>,
}

impl View for Publisher {
    type V = Seq<Seq<Event>>;

    closed spec fn view(&self) -> Seq<Seq<Event>> {
        self.history@
    }
}

impl Publisher {
    /// One producer-end per delivery history.
    pub closed spec fn wf(&self) -> bool {
        self.history@.len() == self.senders@.len()
    }

    /// Constructs an empty broadcaster: no subscribers, no deliveries.
    pub fn new() -> (p: Publisher)
        ensures
            p.wf(),
            p@ == Seq::<Seq<Event>>::empty(),
    {
        Publisher { senders: Vec::new(), history: Ghost(Seq::empty()) }
    }

    /// Creates a fresh unbounded queue, keeps its producer-end, and hands the
    /// consumer-end to the registering party. The new subscriber starts with
    /// an empty delivery history: it will see nothing published before now.
    pub fn subscribe(&mut self) -> (receiver: crossbeam_channel::Receiver<Event>)
        requires
            old(self).wf(),
        ensures
            final(self).wf(),
            final(self)@ == apply_register(old(self)@),
    {
        let (sender, receiver) = crossbeam_channel::unbounded();
        self.senders.push(sender);
        self.history = Ghost(self.history@.push(Seq::empty()));
        receiver
    }

    /// Clones the message once per registered subscriber and enqueues it.
    /// A producer-end whose consumer has been dropped is pruned rather than
    /// aborting the remaining deliveries: every subscriber still present
    /// afterwards received the message, and the count of deliveries made is
    /// returned. When no subscriber was pruned, every history grew by exactly
    /// this message.
    #[verifier::rlimit(60)]
    pub fn publish(&mut self, message: Event) -> (delivered: usize)
        requires
            old(self).wf(),
        ensures
            final(self).wf(),
            delivered == final(self)@.len(),
            final(self)@.len() <= old(self)@.len(),
            publish_outcome(old(self)@, final(self)@, message),
            final(self)@.len() == old(self)@.len() ==> final(self)@ == apply_publish(
                old(self)@,
                message,
            ),
    {
        let ghost before: Seq<Seq<Event>> = self.history@;
        let mut pending: Vec<crossbeam_channel::Sender<Event>> = Vec::new();
        core::mem::swap(&mut self.senders, &mut pending);
        let ghost mut keep: Seq<int> = Seq::empty();
        let ghost mut kept_history: Seq<Seq<Event>> = Seq::empty();
        while pending.len() > 0
            invariant
                pending@.len() <= before.len(),
                keep.len() == kept_history.len(),
                keep.len() == self.senders@.len(),
                forall|j: int|
                    0 <= j < keep.len() ==> 0 <= #[trigger] keep[j] < before.len()
                        - pending@.len(),
                forall|j: int| 0 <= j && j + 1 < keep.len() ==> #[trigger] keep[j] < keep[j + 1],
                forall|j: int|
                    0 <= j < keep.len() ==> kept_history[j] == before[#[trigger] keep[j]].push(
                        message,
                    ),
            decreases pending@.len(),
        {
            let ghost i: int = before.len() - pending@.len();
            let sender = pending.remove(0);
            if send_event(&sender, message.clone()) {
                self.senders.push(sender);
                proof {
                    let prior = keep;
                    keep = keep.push(i);
                    kept_history = kept_history.push(before[i].push(message));
                    assert(forall|j: int| 0 <= j < prior.len() ==> keep[j] == #[trigger] prior[j]);
                    assert(keep[keep.len() - 1] == i);
                }
            }
        }
        self.history = Ghost(kept_history);
        proof {
            assert(publish_keep(keep, before, kept_history, message));
            if keep.len() > 0 {
                lemma_increasing_lower_bound(keep, keep.len() - 1);
            }
            if kept_history.len() == before.len() {
                lemma_increasing_in_range_is_identity(keep, before.len() as int);
                assert forall|j: int| 0 <= j < kept_history.len() implies kept_history[j]
                    == apply_publish(before, message)[j] by {
                    assert(keep[j] == j);
                    assert(kept_history[j] == before[keep[j]].push(message));
                }
                assert(kept_history =~= apply_publish(before, message));
            }
        }
        self.senders.len()
    }
}

/// In a strictly increasing sequence of `n` values drawn from `0..n`, the
/// value at each place is the place itself.
proof fn lemma_increasing_in_range_is_identity(keep: Seq<int>, n: int)
    requires
        keep.len() == n,
        forall|j: int| 0 <= j < n ==> 0 <= #[trigger] keep[j] < n,
        forall|j: int| 0 <= j && j + 1 < n ==> #[trigger] keep[j] < keep[j + 1],
    ensures
        forall|j: int| 0 <= j < n ==> #[trigger] keep[j] == j,
{
    assert forall|j: int| 0 <= j < n implies #[trigger] keep[j] == j by {
        lemma_increasing_lower_bound(keep, j);
        lemma_increasing_upper_bound(keep, n, j);
    }
}

/// Each value of a strictly increasing integer sequence starting at or above
/// zero is at least its place.
proof fn lemma_increasing_lower_bound(keep: Seq<int>, j: int)
    requires
        0 <= j < keep.len(),
        forall|l: int| 0 <= l < keep.len() ==> 0 <= #[trigger] keep[l],
        forall|l: int| 0 <= l && l + 1 < keep.len() ==> #[trigger] keep[l] < keep[l + 1],
    ensures
        keep[j] >= j,
    decreases j,
{
    if j > 0 {
        lemma_increasing_lower_bound(keep, j - 1);
    }
}

/// Each value of a strictly increasing sequence of `n` values below `n` is at
/// most its place.
proof fn lemma_increasing_upper_bound(keep: Seq<int>, n: int, j: int)
    requires
        keep.len() == n,
        0 <= j < n,
        forall|l: int| 0 <= l < n ==> #[trigger] keep[l] < n,
        forall|l: int| 0 <= l && l + 1 < n ==> #[trigger] keep[l] < keep[l + 1],
    ensures
        keep[j] <= j,
    decreases n - j,
{
    if j < n - 1 {
        lemma_increasing_upper_bound(keep, n, j + 1);
    }
}

} // verus!
