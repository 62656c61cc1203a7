//! Simulation events and the colliders they refer to.

use vstd::prelude::*;

verus! {

/// Identifies a collider by its slot and the generation of that slot.
#[derive(Clone, Copy, Debug, PartialEq, Eq, Structural)]
pub struct ColliderHandle {
    pub index: u32,
    pub generation: u32,
}

impl ColliderHandle {
    /// Builds a handle from its two raw parts.
    pub fn from_raw_parts(index: u32, generation: u32) -> (handle: ColliderHandle)
        ensures
            handle == (ColliderHandle { index, generation }),
    {
        ColliderHandle { index, generation }
    }

    /// The slot and generation of this handle.
    pub fn into_raw_parts(self) -> (parts: (u32, u32))
        ensures
            parts == (self.index, self.generation),
    {
        (self.index, self.generation)
    }
}

/// Two colliders began or ceased to touch.
#[derive(Clone, Copy, Debug, PartialEq, Eq, Structural)]
pub enum ContactEvent {
    /// The two colliders started touching.
    Started(ColliderHandle, ColliderHandle),
    /// The two colliders stopped touching.
    Stopped(ColliderHandle, ColliderHandle),
}

/// A sensor began or ceased to overlap another collider.
#[derive(Clone, Copy, Debug, PartialEq, Eq, Structural)]
pub struct IntersectionEvent {
    pub collider1: ColliderHandle,
    pub collider2: ColliderHandle,
    /// `true` when the overlap begins, `false` when it ends.
    pub intersecting: bool,
}

impl IntersectionEvent {
    /// An intersection event between `collider1` and `collider2`.
    pub fn new(collider1: ColliderHandle, collider2: ColliderHandle, intersecting: bool) -> (event:
        IntersectionEvent)
        ensures
            event == (IntersectionEvent { collider1, collider2, intersecting }),
    {
        IntersectionEvent { collider1, collider2, intersecting }
    }
}

/// What a simulation step reports: a contact or a sensor intersection.
#[derive(Clone, Copy, Debug, PartialEq, Eq, Structural)]
pub enum SimulationEvent {
    Contact(ContactEvent),
    Intersection(IntersectionEvent),
}

impl SimulationEvent {
    /// The pair of colliders that the event is about, in the order it names them.
    pub open spec fn spec_colliders(self) -> (ColliderHandle, ColliderHandle) {
        match self {
            SimulationEvent::Contact(ContactEvent::Started(a, b)) => (a, b),
            SimulationEvent::Contact(ContactEvent::Stopped(a, b)) => (a, b),
            SimulationEvent::Intersection(e) => (e.collider1, e.collider2),
        }
    }

    /// Whether the event marks the beginning of a contact or of an overlap.
    pub open spec fn spec_is_begin(self) -> bool {
        match self {
            SimulationEvent::Contact(ContactEvent::Started(_, _)) => true,
            SimulationEvent::Contact(ContactEvent::Stopped(_, _)) => false,
            SimulationEvent::Intersection(e) => e.intersecting,
        }
    }

    /// The pair of colliders that the event is about.
    #[verifier::when_used_as_spec(spec_colliders)]
    pub fn colliders(self) -> (pair: (ColliderHandle, ColliderHandle))
        ensures
            pair == self.spec_colliders(),
    {
        match self {
            SimulationEvent::Contact(ContactEvent::Started(a, b)) => (a, b),
            SimulationEvent::Contact(ContactEvent::Stopped(a, b)) => (a, b),
            SimulationEvent::Intersection(e) => (e.collider1, e.collider2),
        }
    }

    /// Whether the event marks a beginning rather than an end.
    #[verifier::when_used_as_spec(spec_is_begin)]
    pub fn is_begin(self) -> (begin: bool)
        ensures
            begin == self.spec_is_begin(),
    {
        match self {
            SimulationEvent::Contact(ContactEvent::Started(_, _)) => true,
            SimulationEvent::Contact(ContactEvent::Stopped(_, _)) => false,
            SimulationEvent::Intersection(e) => e.intersecting,
        }
    }
}

} // verus!
