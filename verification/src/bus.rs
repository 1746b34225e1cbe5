use vstd::prelude::*;

verus! {

use crate::delegate::Listener;

/// One registration: a listener waiting on a named topic.
struct Subscription<L> {
    topic: String,
    listener: L,
}

/// The listeners of `entries` registered for `topic`, in registration order.
spec fn bus_lookup<L>(entries: Seq<Subscription<L>>, topic: Seq<char>) -> Seq<L>
    decreases entries.len(),
{
    if entries.len() == 0 {
        Seq::empty()
    } else {
        let rest = bus_lookup(entries.drop_last(), topic);
        if entries.last().topic@ == topic {
            rest.push(entries.last().listener)
        } else {
            rest
        }
    }
}

/// A named-topic event registry: listeners subscribe to a topic by name, and
/// publishing on a topic invokes exactly the listeners registered for it, in
/// registration order, each with a shared reference to the one payload
/// instance. Publishing on a topic nobody subscribed to is a no-op, not an
/// error.
pub struct Bus<L> {
    subscriptions: Vec<Subscription<L>>,
}

impl<L: Listener> Bus<L> {
    /// The listeners registered for a topic, in registration order.
    pub closed spec fn listeners_for(self, topic: Seq<char>) -> Seq<L> {
        bus_lookup(self.subscriptions@, topic)
    }

    pub fn new() -> (bus: Bus<L>)
        ensures
            forall|topic: Seq<char>| #[trigger] bus.listeners_for(topic) == Seq::<L>::empty(),
    {
        Bus { subscriptions: Vec::new() }
    }

    /// Registers one more listener for the topic, after those already there;
    /// every other topic's listeners stay as they were.
    pub fn subscribe(&mut self, event: String, listener: L)
        ensures
            final(self).listeners_for(event@) == old(self).listeners_for(event@).push(listener),
            forall|topic: Seq<char>|
                topic != event@ ==> #[trigger] final(self).listeners_for(topic) == old(
                    self,
                ).listeners_for(topic),
    {
        let ghost prior = self.subscriptions@;
        self.subscriptions.push(Subscription { topic: event, listener });
        proof {
            assert forall|topic: Seq<char>| #[trigger]
                bus_lookup(self.subscriptions@, topic) == if topic == event@ {
                    bus_lookup(prior, topic).push(listener)
                } else {
                    bus_lookup(prior, topic)
                } by {
                assert(self.subscriptions@.drop_last() =~= prior);
            }
        }
    }

    /// Invokes every listener registered for the topic, in registration
    /// order, and reports how many were notified: always all of them. An
    /// unknown topic notifies nobody.
    pub fn publish(&self, event: &String, data: &L::Payload) -> (notified: usize)
        ensures
            notified == self.listeners_for(event@).len(),
    {
        let mut notified: usize = 0;
        let mut i: usize = 0;
        while i < self.subscriptions.len()
            invariant
                i <= self.subscriptions.len(),
                notified == bus_lookup(self.subscriptions@.take(i as int), event@).len(),
                notified <= i,
            decreases self.subscriptions.len() - i,
        {
            proof {
                assert(self.subscriptions@.take(i + 1).drop_last() =~= self.subscriptions@.take(
                    i as int,
                ));
                assert(self.subscriptions@.take(i + 1).last() == self.subscriptions@[i as int]);
            }
            if self.subscriptions[i].topic == *event {
                self.subscriptions[i].listener.on_event(data);
                notified = notified + 1;
            }
            i += 1;
        }
        proof {
            assert(self.subscriptions@.take(self.subscriptions@.len() as int)
                =~= self.subscriptions@);
        }
        notified
    }
}

} // verus!
