//! The two event queues of a simulation step and their drain.

use vstd::prelude::*;
use bevy::ecs::event::Events;
use crate::events::{ContactEvent, IntersectionEvent, SimulationEvent};
use crate::handler::EventHandler;
use crate::order::{contact_notices, delivery_order, intersection_notices};

verus! {

/// The events that a physics step has produced and nobody has consumed yet,
/// held in two of the engine's event queues.
#[verifier::external_body]
pub struct EventQueues {
    contact_events: Events<ContactEvent>,
    intersection_events: Events<IntersectionEvent>,
}

/// The contact events that `queues` holds, oldest first.
pub uninterp spec fn queued_contacts(queues: EventQueues) -> Seq<ContactEvent>;

/// The intersection events that `queues` holds, oldest first.
pub uninterp spec fn queued_intersections(queues: EventQueues) -> Seq<IntersectionEvent>;

/// How many contact events `queues` has been sent since it was made: the
/// number that the engine's queue gives to the next one.
pub uninterp spec fn contacts_numbered(queues: EventQueues) -> nat;

/// How many intersection events `queues` has been sent since it was made.
pub uninterp spec fn intersections_numbered(queues: EventQueues) -> nat;

impl EventQueues {
    /// The queued contact events, oldest first.
    pub open spec fn contacts(&self) -> Seq<ContactEvent> {
        queued_contacts(*self)
    }

    /// The queued intersection events, oldest first.
    pub open spec fn intersections(&self) -> Seq<IntersectionEvent> {
        queued_intersections(*self)
    }

    /// How many contact events and how many intersection events were ever
    /// sent, drained ones included.
    pub open spec fn sent(&self) -> (nat, nat) {
        (contacts_numbered(*self), intersections_numbered(*self))
    }

    /// Whether the queue for `event` can still number one more event.
    pub open spec fn has_room_for(&self, event: SimulationEvent) -> bool {
        match event {
            SimulationEvent::Contact(_) => self.sent().0 < usize::MAX,
            SimulationEvent::Intersection(_) => self.sent().1 < usize::MAX,
        }
    }

    /// What the next drain will deliver, in delivery order.
    pub open spec fn pending(&self) -> Seq<SimulationEvent> {
        delivery_order(self.contacts(), self.intersections())
    }

    /// Whether both queues are empty.
    pub open spec fn spec_is_empty(&self) -> bool {
        self.contacts().len() == 0 && self.intersections().len() == 0
    }

    /// `Events::default`, once per queue: a queue made this way holds no
    /// event and has numbered none.
    #[verifier::external_body]
    pub(crate) fn fresh() -> (queues: EventQueues)
        ensures
            queued_contacts(queues) == Seq::<ContactEvent>::empty(),
            queued_intersections(queues) == Seq::<IntersectionEvent>::empty(),
            contacts_numbered(queues) == 0,
            intersections_numbered(queues) == 0,
    {
        EventQueues { contact_events: Events::default(), intersection_events: Events::default() }
    }

    /// `Events::send` on the contact queue: the event goes behind those
    /// already queued and takes the next number, which is a `usize`; the
    /// intersection queue is not touched.
    #[verifier::external_body]
    pub(crate) fn push_contact(&mut self, event: ContactEvent)
        requires
            contacts_numbered(*old(self)) < usize::MAX,
        ensures
            queued_contacts(*final(self)) == queued_contacts(*old(self)).push(event),
            contacts_numbered(*final(self)) == contacts_numbered(*old(self)) + 1,
            queued_intersections(*final(self)) == queued_intersections(*old(self)),
            intersections_numbered(*final(self)) == intersections_numbered(*old(self)),
    {
        self.contact_events.send(event)
    }

    /// `Events::send` on the intersection queue: the event goes behind those
    /// already queued and takes the next number, which is a `usize`; the
    /// contact queue is not touched.
    #[verifier::external_body]
    pub(crate) fn push_intersection(&mut self, event: IntersectionEvent)
        requires
            intersections_numbered(*old(self)) < usize::MAX,
        ensures
            queued_intersections(*final(self)) == queued_intersections(*old(self)).push(event),
            intersections_numbered(*final(self)) == intersections_numbered(*old(self)) + 1,
            queued_contacts(*final(self)) == queued_contacts(*old(self)),
            contacts_numbered(*final(self)) == contacts_numbered(*old(self)),
    {
        self.intersection_events.send(event)
    }

    /// `Events::len` on the contact queue: the number of events it holds.
    #[verifier::external_body]
    pub(crate) fn count_contacts(&self) -> (n: usize)
        ensures
            n == queued_contacts(*self).len(),
    {
        self.contact_events.len()
    }

    /// `Events::len` on the intersection queue: the number of events it holds.
    #[verifier::external_body]
    pub(crate) fn count_intersections(&self) -> (n: usize)
        ensures
            n == queued_intersections(*self).len(),
    {
        self.intersection_events.len()
    }

    /// `Events::drain` on the contact queue: every event it holds comes out,
    /// the oldest first, and the queue is left empty; its numbering goes on
    /// from where it was. The intersection queue is not touched.
    #[verifier::external_body]
    pub(crate) fn take_contacts(&mut self) -> (taken: Vec<ContactEvent>)
        ensures
            taken@ == queued_contacts(*old(self)),
            queued_contacts(*final(self)) == Seq::<ContactEvent>::empty(),
            contacts_numbered(*final(self)) == contacts_numbered(*old(self)),
            queued_intersections(*final(self)) == queued_intersections(*old(self)),
            intersections_numbered(*final(self)) == intersections_numbered(*old(self)),
    {
        self.contact_events.drain().collect()
    }

    /// `Events::drain` on the intersection queue: every event it holds comes
    /// out, the oldest first, and the queue is left empty; its numbering goes
    /// on from where it was. The contact queue is not touched.
    #[verifier::external_body]
    pub(crate) fn take_intersections(&mut self) -> (taken: Vec<IntersectionEvent>)
        ensures
            taken@ == queued_intersections(*old(self)),
            queued_intersections(*final(self)) == Seq::<IntersectionEvent>::empty(),
            intersections_numbered(*final(self)) == intersections_numbered(*old(self)),
            queued_contacts(*final(self)) == queued_contacts(*old(self)),
            contacts_numbered(*final(self)) == contacts_numbered(*old(self)),
    {
        self.intersection_events.drain().collect()
    }

    /// Two empty queues that no event was sent to yet.
    pub fn new() -> (queues: EventQueues)
        ensures
            queues.contacts() == Seq::<ContactEvent>::empty(),
            queues.intersections() == Seq::<IntersectionEvent>::empty(),
            queues.sent() == (0nat, 0nat),
    {
        EventQueues::fresh()
    }

    /// Queues `event` behind the events of its kind that are already there.
    pub fn send(&mut self, event: SimulationEvent)
        requires
            old(self).has_room_for(event),
        ensures
            match event {
                SimulationEvent::Contact(c) => {
                    &&& final(self).contacts() == old(self).contacts().push(c)
                    &&& final(self).intersections() == old(self).intersections()
                    &&& final(self).sent() == (old(self).sent().0 + 1, old(self).sent().1)
                },
                SimulationEvent::Intersection(i) => {
                    &&& final(self).intersections() == old(self).intersections().push(i)
                    &&& final(self).contacts() == old(self).contacts()
                    &&& final(self).sent() == (old(self).sent().0, old(self).sent().1 + 1)
                },
            },
    {
        match event {
            SimulationEvent::Contact(c) => self.push_contact(c),
            SimulationEvent::Intersection(i) => self.push_intersection(i),
        }
    }

    /// The number of queued contact events and of queued intersection events.
    pub fn counts(&self) -> (n: (usize, usize))
        ensures
            n.0 == self.contacts().len(),
            n.1 == self.intersections().len(),
    {
        (self.count_contacts(), self.count_intersections())
    }

    /// Whether nothing is queued.
    #[verifier::when_used_as_spec(spec_is_empty)]
    pub fn is_empty(&self) -> (empty: bool)
        ensures
            empty == self.spec_is_empty(),
    {
        self.count_contacts() == 0 && self.count_intersections() == 0
    }

    /// Empties both queues and returns what they held, in delivery order.
    pub fn drain(&mut self) -> (batch: Vec<SimulationEvent>)
        ensures
            batch@ == old(self).pending(),
            final(self).contacts() == Seq::<ContactEvent>::empty(),
            final(self).intersections() == Seq::<IntersectionEvent>::empty(),
            final(self).sent() == old(self).sent(),
    {
        let intersections = self.take_intersections();
        let contacts = self.take_contacts();
        merge_batches(&contacts, &intersections)
    }

    /// Drains both queues into `handler`: one call of `handle` per queued
    /// event, the intersection events first and then the contact events, each
    /// queue oldest first. Afterwards nothing is queued.
    pub fn forward_events<H: EventHandler>(&mut self, handler: &mut H)
        requires
            old(handler).ready(),
        ensures
            final(handler).ready(),
            final(handler).received() == old(handler).received() + old(self).pending(),
            final(self).contacts() == Seq::<ContactEvent>::empty(),
            final(self).intersections() == Seq::<IntersectionEvent>::empty(),
            final(self).sent() == old(self).sent(),
    {
        let batch = self.drain();
        deliver(&batch, handler);
    }
}

/// Puts what the two queues gave up into delivery order: the intersection
/// events first, then the contact events, each in the order given.
pub fn merge_batches(contacts: &Vec<ContactEvent>, intersections: &Vec<IntersectionEvent>) -> (batch:
    Vec<SimulationEvent>)
    ensures
        batch@ == delivery_order(contacts@, intersections@),
{
    let mut batch: Vec<SimulationEvent> = Vec::new();
    let mut i: usize = 0;
    while i < intersections.len()
        invariant
            i <= intersections.len(),
            batch@ == intersection_notices(intersections@.take(i as int)),
        decreases intersections.len() - i,
    {
        batch.push(SimulationEvent::Intersection(intersections[i]));
        i += 1;
        assert(batch@ =~= intersection_notices(intersections@.take(i as int)));
    }
    assert(intersections@.take(i as int) =~= intersections@);
    let mut j: usize = 0;
    while j < contacts.len()
        invariant
            j <= contacts.len(),
            batch@ == intersection_notices(intersections@) + contact_notices(
                contacts@.take(j as int),
            ),
        decreases contacts.len() - j,
    {
        batch.push(SimulationEvent::Contact(contacts[j]));
        j += 1;
        assert(batch@ =~= intersection_notices(intersections@) + contact_notices(
            contacts@.take(j as int),
        ));
    }
    assert(contacts@.take(j as int) =~= contacts@);
    batch
}

/// Hands every event of `batch` to `handler`, first to last, one call each.
pub fn deliver<H: EventHandler>(batch: &Vec<SimulationEvent>, handler: &mut H)
    requires
        old(handler).ready(),
    ensures
        final(handler).ready(),
        final(handler).received() == old(handler).received() + batch@,
{
    let mut k: usize = 0;
    assert(handler.received() =~= old(handler).received() + batch@.take(0));
    while k < batch.len()
        invariant
            k <= batch.len(),
            handler.ready(),
            handler.received() == old(handler).received() + batch@.take(k as int),
        decreases batch.len() - k,
    {
        handler.handle(&batch[k]);
        k += 1;
        assert(handler.received() =~= old(handler).received() + batch@.take(k as int));
    }
    assert(batch@.take(k as int) =~= batch@);
}

} // verus!
