//! Subscribers of simulation events.

use vstd::prelude::*;
use crate::events::SimulationEvent;

verus! {

/// Something that events are delivered to, one call per event.
///
/// `received` is the record of every event handed over so far, oldest first;
/// it is how contracts speak of the calls that were made.
pub trait EventHandler {
    /// Every event delivered to this handler so far, in delivery order.
    spec fn received(&self) -> Seq<SimulationEvent>;

    /// Whether the handler is in working order: it can take any event, and
    /// `received` is true to what it has done.
    spec fn ready(&self) -> bool;

    /// Takes one event.
    fn handle(&mut self, event: &SimulationEvent)
        requires
            old(self).ready(),
        ensures
            final(self).ready(),
            final(self).received() == old(self).received().push(*event),
    ;
}

/// A handler that keeps every event it is given.
pub struct EventLog {
    entries: Vec<SimulationEvent>,
}

impl EventLog {
    /// A log with nothing in it.
    pub fn new() -> (log: EventLog)
        ensures
            log.received() == Seq::<SimulationEvent>::empty(),
            log.ready(),
    {
        EventLog { entries: Vec::new() }
    }

    /// How many events the log holds.
    pub fn len(&self) -> (n: usize)
        ensures
            n == self.received().len(),
    {
        self.entries.len()
    }

    /// The event delivered at place `i`, or `None` past the end.
    pub fn get(&self, i: usize) -> (entry: Option<SimulationEvent>)
        ensures
            entry == if i < self.received().len() {
                Some(self.received()[i as int])
            } else {
                None
            },
    {
        if i < self.entries.len() {
            Some(self.entries[i])
        } else {
            None
        }
    }
}

impl EventHandler for EventLog {
    closed spec fn received(&self) -> Seq<SimulationEvent> {
        self.entries@
    }

    open spec fn ready(&self) -> bool {
        true
    }

    fn handle(&mut self, event: &SimulationEvent) {
        self.entries.push(*event);
    }
}

/// A handler that calls a function for each event. While it is `ready`, the
/// function accepts every event and has been called on each event of
/// `received`.
pub struct Callback<F: Fn(&SimulationEvent)> {
    callback: F,
    seen: Ghost<Seq<SimulationEvent>>,
}

impl<F: Fn(&SimulationEvent)> Callback<F> {
    /// The function that is called.
    pub closed spec fn function(&self) -> F {
        self.callback
    }

    /// Wraps `callback`, which must accept every event and has not been
    /// called yet.
    pub fn new(callback: F) -> (handler: Self)
        requires
            forall|event: &SimulationEvent| #[trigger] call_requires(callback, (event,)),
        ensures
            handler.function() == callback,
            handler.received() == Seq::<SimulationEvent>::empty(),
            handler.ready(),
    {
        let handler = Callback { callback, seen: Ghost(Seq::empty()) };
        assert(handler.function() == callback);
        handler
    }
}

impl<F: Fn(&SimulationEvent)> EventHandler for Callback<F> {
    closed spec fn received(&self) -> Seq<SimulationEvent> {
        self.seen@
    }

    open spec fn ready(&self) -> bool {
        &&& forall|event: &SimulationEvent| #[trigger]
            call_requires(self.function(), (event,))
        &&& forall|i: int|
            0 <= i < self.received().len() ==> call_ensures(
                self.function(),
                (&#[trigger] self.received()[i],),
                (),
            )
    }

    fn handle(&mut self, event: &SimulationEvent)
        ensures
            final(self).function() == old(self).function(),
    {
        assert(self.function() == self.callback);
        (self.callback)(event);
        self.seen = Ghost(self.seen@.push(*event));
        proof {
            let f = self.function();
            assert(f == self.callback);
            assert(call_ensures(f, (event,), ()));
            assert forall|i: int| 0 <= i < self.received().len() implies call_ensures(
                f,
                (&#[trigger] self.received()[i],),
                (),
            ) by {
                if i < old(self).received().len() {
                    assert(self.received()[i] == old(self).received()[i]);
                } else {
                    assert(self.received()[i] == *event);
                }
            }
        }
    }
}

} // verus!
