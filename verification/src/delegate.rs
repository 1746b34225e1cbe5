use vstd::prelude::*;

verus! {

/// What a party interested in events implements. Dispatch hands every
/// listener a shared reference to the one payload instance, so a listener
/// that keeps state does so behind its own interior mutability.
pub trait Listener {
    /// The payload this listener expects.
    type Payload;

    fn on_event(&self, payload: &Self::Payload);
}

/// A per-object ordered listener list: the registered listeners are invoked
/// synchronously, in registration order, each exactly once per trigger.
pub struct Delegate<L> {
    listeners: Vec<L>,
}

impl<L: Listener> Delegate<L> {
    /// The registered listeners, in registration order.
    pub closed spec fn listener_seq(self) -> Seq<L> {
        self.listeners@
    }

    pub fn new() -> (delegate: Delegate<L>)
        ensures
            delegate.listener_seq() == Seq::<L>::empty(),
    {
        Delegate { listeners: Vec::new() }
    }

    /// Adds a listener, keeping the existing ones.
    pub fn add_listener(&mut self, listener: L)
        ensures
            final(self).listener_seq() == old(self).listener_seq().push(listener),
    {
        self.listeners.push(listener);
    }

    /// Invokes every registered listener with the payload, in registration
    /// order, and reports how many were notified: always all of them.
    pub fn trigger_event(&self, payload: &L::Payload) -> (notified: usize)
        ensures
            notified == self.listener_seq().len(),
    {
        let mut i: usize = 0;
        while i < self.listeners.len()
            invariant
                i <= self.listeners.len(),
            decreases self.listeners.len() - i,
        {
            self.listeners[i].on_event(payload);
            i += 1;
        }
        i
    }
}

} // verus!
