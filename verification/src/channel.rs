//! Typed event channels: one carries inbound fetch requests, another carries
//! outbound responses. A channel supports `publish` (append one event) and
//! `drain` (take every pending event, in arrival order, leaving the channel
//! empty). No capacity bound, no event ever dropped.

use vstd::prelude::*;

verus! {

/// An unbounded queue of events, viewed as the sequence of events published
/// since the last drain, in arrival order.
pub struct EventChannel<T> {
    events: Vec<T>,
}

impl<T> View for EventChannel<T> {
    type V = Seq<T>;

    closed spec fn view(&self) -> Seq<T> {
        self.events@
    }
}

impl<T> EventChannel<T> {
    /// A fresh channel holds no events.
    pub fn new() -> (c: Self)
        ensures
            c@ == Seq::<T>::empty(),
    {
        EventChannel { events: Vec::new() }
    }

    /// Appends one event; everything already pending stays, in its order.
    pub fn publish(&mut self, e: T)
        ensures
            final(self)@ == old(self)@.push(e),
    {
        self.events.push(e);
    }

    /// Returns every pending event in arrival order and empties the channel.
    pub fn drain(&mut self) -> (out: Vec<T>)
        ensures
            out@ == old(self)@,
            final(self)@ == Seq::<T>::empty(),
    {
        let mut taken: Vec<T> = Vec::new();
        core::mem::swap(&mut taken, &mut self.events);
        taken
    }

    /// The number of pending events.
    pub fn len(&self) -> (n: usize)
        ensures
            n == self@.len(),
    {
        self.events.len()
    }
}

/// Law: nothing is guaranteed about the order in which independently
/// completing background units publish their responses, only about which
/// responses arrive. Publishing the same events in two different orders onto
/// a channel with the same pending events leaves it holding the same
/// collection of events, and in particular the same number of them.
pub proof fn lemma_publish_order_immaterial<T>(base: Seq<T>, s1: Seq<T>, s2: Seq<T>)
    requires
        s1.to_multiset() == s2.to_multiset(),
    ensures
        (base + s1).to_multiset() == (base + s2).to_multiset(),
        (base + s1).len() == (base + s2).len(),
{
    broadcast use vstd::seq_lib::group_to_multiset_ensures;

    vstd::seq_lib::lemma_multiset_commutative(base, s1);
    vstd::seq_lib::lemma_multiset_commutative(base, s2);
    assert((base + s1).to_multiset() =~= (base + s2).to_multiset());
    vstd::seq_lib::to_multiset_len(base + s1);
    vstd::seq_lib::to_multiset_len(base + s2);
}

} // verus!
