//! A publish-subscribe bus: every published event reaches every handler.
//!
//! Handlers are values of one caller-chosen type implementing
//! [`Subscriber`]; its contract is what makes the bus's guarantee
//! expressible: publishing appends the event to what each handler has
//! observed, in subscription order, and drops none of them.

use vstd::prelude::*;

verus! {

/// A receiver of events. Implementors choose what "observing" an event
/// means for them; the contract only fixes that each notification appends
/// the event to the observation history.
pub trait Subscriber: Sized {
    /// The kind of event this subscriber consumes.
    type Event;

    /// The events observed so far, oldest first. Implementors that want
    /// the bus's delivery guarantee override this with their own history;
    /// without an override nothing can be proved of their notifications.
    open spec fn observed(&self) -> Seq<Self::Event> {
        Seq::empty()
    }

    /// Receives one event, observing it after everything seen before.
    fn notify(&mut self, event: &Self::Event)
        ensures
            final(self).observed() == old(self).observed().push(*event);
}

/// A bus distributing each published event to all subscribed handlers.
pub struct EventBus<S> {
    handlers: Vec<S>,
}

impl<S> EventBus<S> {
    /// The subscribed handlers, in subscription order.
    pub closed spec fn subscribers(&self) -> Seq<S> {
        self.handlers@
    }

    /// A bus with no handlers.
    pub fn new() -> (r: Self)
        ensures
            r.subscribers() == Seq::<S>::empty(),
    {
        EventBus { handlers: Vec::new() }
    }

    /// How many handlers are subscribed.
    pub fn handler_count(&self) -> (r: usize)
        ensures
            r == self.subscribers().len(),
    {
        self.handlers.len()
    }

    /// The subscribed handlers themselves, in subscription order, for
    /// reading what they observed.
    pub fn handlers(&self) -> (r: &Vec<S>)
        ensures
            r@ == self.subscribers(),
    {
        &self.handlers
    }
}

impl<S: Subscriber> EventBus<S> {
    /// Adds a handler behind those already subscribed.
    pub fn subscribe(&mut self, handler: S)
        ensures
            final(self).subscribers() == old(self).subscribers().push(handler),
    {
        self.handlers.push(handler);
    }

    /// Delivers one event to every handler, in subscription order: each
    /// handler observes exactly this event, once, after everything it had
    /// observed before; no handler is added or lost.
    pub fn publish(&mut self, event: &S::Event)
        ensures
            final(self).subscribers().len() == old(self).subscribers().len(),
            forall|i: int|
                0 <= i < final(self).subscribers().len()
                    ==> (#[trigger] final(self).subscribers()[i]).observed() == old(
                    self,
                ).subscribers()[i].observed().push(*event),
    {
        let n = self.handlers.len();
        let mut i: usize = 0;
        while i < n
            invariant
                i <= n,
                self.handlers@.len() == n,
                n == old(self).subscribers().len(),
                forall|j: int|
                    0 <= j < i ==> (#[trigger] self.handlers@[j]).observed() == old(
                        self,
                    ).subscribers()[j].observed().push(*event),
                forall|j: int| i <= j < n ==> self.handlers@[j] == old(self).subscribers()[j],
            decreases n - i,
        {
            let mut handler = self.handlers.remove(i);
            handler.notify(event);
            self.handlers.insert(i, handler);
            i = i + 1;
        }
    }
}

impl<S> Default for EventBus<S> {
    /// A bus with no handlers.
    fn default() -> (r: Self)
        ensures
            r.subscribers() == Seq::<S>::empty(),
    {
        EventBus::new()
    }
}

/// A subscriber that keeps a copy of every event it observes, in order.
pub struct EventRecorder<E> {
    seen: Vec<E>,
}

impl<E: Copy> Subscriber for EventRecorder<E> {
    type Event = E;

    closed spec fn observed(&self) -> Seq<E> {
        self.seen@
    }

    fn notify(&mut self, event: &E) {
        self.seen.push(*event);
    }
}

impl<E: Copy> EventRecorder<E> {
    /// A recorder that has observed nothing yet.
    pub fn new() -> (r: Self)
        ensures
            r.observed() == Seq::<E>::empty(),
    {
        EventRecorder { seen: Vec::new() }
    }

    /// How many events have been observed.
    pub fn count(&self) -> (r: usize)
        ensures
            r == self.observed().len(),
    {
        self.seen.len()
    }

    /// The observed events, oldest first.
    pub fn events(&self) -> (r: &Vec<E>)
        ensures
            r@ == self.observed(),
    {
        &self.seen
    }
}

} // verus!
