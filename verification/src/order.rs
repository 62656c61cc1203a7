//! The order in which one step's events reach a handler, as a mathematical sequence.

use vstd::prelude::*;
use crate::events::{ContactEvent, IntersectionEvent, SimulationEvent};

verus! {

/// The intersection events of `queue`, each as a simulation event, in queue order.
pub open spec fn intersection_notices(queue: Seq<IntersectionEvent>) -> Seq<SimulationEvent> {
    Seq::new(queue.len(), |i: int| SimulationEvent::Intersection(queue[i]))
}

/// The contact events of `queue`, each as a simulation event, in queue order.
pub open spec fn contact_notices(queue: Seq<ContactEvent>) -> Seq<SimulationEvent> {
    Seq::new(queue.len(), |i: int| SimulationEvent::Contact(queue[i]))
}

/// Everything one drain delivers: the intersection events first, then the
/// contact events, each queue in the order it was filled.
pub open spec fn delivery_order(
    contacts: Seq<ContactEvent>,
    intersections: Seq<IntersectionEvent>,
) -> Seq<SimulationEvent> {
    intersection_notices(intersections) + contact_notices(contacts)
}

/// The contact events among `delivered`, in the order they occur there.
pub open spec fn contacts_in(delivered: Seq<SimulationEvent>) -> Seq<ContactEvent>
    decreases delivered.len(),
{
    if delivered.len() == 0 {
        Seq::empty()
    } else {
        let before = contacts_in(delivered.drop_last());
        match delivered.last() {
            SimulationEvent::Contact(c) => before.push(c),
            SimulationEvent::Intersection(_) => before,
        }
    }
}

/// The intersection events among `delivered`, in the order they occur there.
pub open spec fn intersections_in(delivered: Seq<SimulationEvent>) -> Seq<IntersectionEvent>
    decreases delivered.len(),
{
    if delivered.len() == 0 {
        Seq::empty()
    } else {
        let before = intersections_in(delivered.drop_last());
        match delivered.last() {
            SimulationEvent::Contact(_) => before,
            SimulationEvent::Intersection(e) => before.push(e),
        }
    }
}

/// Splitting by kind distributes over concatenation.
pub proof fn lemma_kinds_of_concat(first: Seq<SimulationEvent>, second: Seq<SimulationEvent>)
    ensures
        contacts_in(first + second) == contacts_in(first) + contacts_in(second),
        intersections_in(first + second) == intersections_in(first) + intersections_in(second),
    decreases second.len(),
{
    if second.len() == 0 {
        assert(first + second =~= first);
        assert(contacts_in(first) + contacts_in(second) =~= contacts_in(first));
        assert(intersections_in(first) + intersections_in(second) =~= intersections_in(first));
    } else {
        lemma_kinds_of_concat(first, second.drop_last());
        assert((first + second).drop_last() =~= first + second.drop_last());
        assert((first + second).last() == second.last());
        match second.last() {
            SimulationEvent::Contact(c) => {
                assert((contacts_in(first) + contacts_in(second.drop_last())).push(c)
                    =~= contacts_in(first) + contacts_in(second.drop_last()).push(c));
            },
            SimulationEvent::Intersection(e) => {
                assert((intersections_in(first) + intersections_in(second.drop_last())).push(e)
                    =~= intersections_in(first) + intersections_in(second.drop_last()).push(e));
            },
        }
    }
}

/// A run of contact notices holds its contact events and no intersection event.
pub proof fn lemma_kinds_of_contact_notices(queue: Seq<ContactEvent>)
    ensures
        contacts_in(contact_notices(queue)) == queue,
        intersections_in(contact_notices(queue)) == Seq::<IntersectionEvent>::empty(),
    decreases queue.len(),
{
    if queue.len() == 0 {
        assert(contacts_in(contact_notices(queue)) =~= queue);
    } else {
        lemma_kinds_of_contact_notices(queue.drop_last());
        assert(contact_notices(queue).drop_last() =~= contact_notices(queue.drop_last()));
        assert(contact_notices(queue).last() == SimulationEvent::Contact(queue.last()));
        assert(queue.drop_last().push(queue.last()) =~= queue);
    }
}

/// A run of intersection notices holds its intersection events and no contact event.
pub proof fn lemma_kinds_of_intersection_notices(queue: Seq<IntersectionEvent>)
    ensures
        intersections_in(intersection_notices(queue)) == queue,
        contacts_in(intersection_notices(queue)) == Seq::<ContactEvent>::empty(),
    decreases queue.len(),
{
    if queue.len() == 0 {
        assert(intersections_in(intersection_notices(queue)) =~= queue);
    } else {
        lemma_kinds_of_intersection_notices(queue.drop_last());
        assert(intersection_notices(queue).drop_last() =~= intersection_notices(
            queue.drop_last(),
        ));
        assert(intersection_notices(queue).last() == SimulationEvent::Intersection(queue.last()));
        assert(queue.drop_last().push(queue.last()) =~= queue);
    }
}

/// Drain exactness: a handler that had received `before` and then takes a
/// drain of `contacts` and `intersections` has received one event more for
/// each queued event; the contact events among them are those it had, followed
/// by the queued ones in queue order, each once, and likewise the intersection
/// events.
pub proof fn lemma_drain_exact(
    before: Seq<SimulationEvent>,
    contacts: Seq<ContactEvent>,
    intersections: Seq<IntersectionEvent>,
)
    ensures
        ({
            let after = before + delivery_order(contacts, intersections);
            &&& after.len() == before.len() + contacts.len() + intersections.len()
            &&& contacts_in(after) == contacts_in(before) + contacts
            &&& intersections_in(after) == intersections_in(before) + intersections
        }),
{
    let delivered = delivery_order(contacts, intersections);
    lemma_kinds_of_concat(intersection_notices(intersections), contact_notices(contacts));
    lemma_kinds_of_contact_notices(contacts);
    lemma_kinds_of_intersection_notices(intersections);
    assert(Seq::<ContactEvent>::empty() + contacts =~= contacts);
    assert(intersections + Seq::<IntersectionEvent>::empty() =~= intersections);
    assert(contacts_in(delivered) == contacts);
    assert(intersections_in(delivered) == intersections);
    lemma_kinds_of_concat(before, delivered);
}

/// Event ordering: of two contact events queued at places `a < b`, the one at
/// `a` is delivered strictly before the one at `b`; likewise for two
/// intersection events.
pub proof fn lemma_delivery_keeps_queue_order(
    contacts: Seq<ContactEvent>,
    intersections: Seq<IntersectionEvent>,
    a: int,
    b: int,
)
    requires
        0 <= a < b,
    ensures
        b < contacts.len() ==> {
            let order = delivery_order(contacts, intersections);
            &&& intersections.len() + a < intersections.len() + b < order.len()
            &&& order[intersections.len() + a] == SimulationEvent::Contact(contacts[a])
            &&& order[intersections.len() + b] == SimulationEvent::Contact(contacts[b])
        },
        b < intersections.len() ==> {
            let order = delivery_order(contacts, intersections);
            &&& a < b < order.len()
            &&& order[a] == SimulationEvent::Intersection(intersections[a])
            &&& order[b] == SimulationEvent::Intersection(intersections[b])
        },
{
}

} // verus!
