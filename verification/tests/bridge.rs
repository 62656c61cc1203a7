use physics_sync::bridge::{deliver, merge_batches, EventQueues};
use physics_sync::events::{ColliderHandle, ContactEvent, IntersectionEvent, SimulationEvent};
use physics_sync::handler::{Callback, EventHandler, EventLog};
use std::cell::RefCell;

fn handle(index: u32) -> ColliderHandle {
    ColliderHandle::from_raw_parts(index, 0)
}

fn started(a: u32, b: u32) -> ContactEvent {
    ContactEvent::Started(handle(a), handle(b))
}

fn stopped(a: u32, b: u32) -> ContactEvent {
    ContactEvent::Stopped(handle(a), handle(b))
}

fn overlap(a: u32, b: u32, intersecting: bool) -> IntersectionEvent {
    IntersectionEvent::new(handle(a), handle(b), intersecting)
}

fn entries(log: &EventLog) -> Vec<SimulationEvent> {
    let mut out = Vec::new();
    let mut i = 0;
    while let Some(e) = log.get(i) {
        out.push(e);
        i += 1;
    }
    out
}

#[test]
fn new_queues_are_empty() {
    let queues = EventQueues::new();
    assert!(queues.is_empty());
    assert_eq!(queues.counts().0, 0);
    assert_eq!(queues.counts().1, 0);
}

#[test]
fn sending_fills_the_matching_queue_only() {
    let mut queues = EventQueues::new();
    queues.send(SimulationEvent::Contact(started(1, 2)));
    assert_eq!(queues.counts().0, 1);
    assert_eq!(queues.counts().1, 0);
    assert!(!queues.is_empty());
    queues.send(SimulationEvent::Intersection(overlap(3, 4, true)));
    queues.send(SimulationEvent::Intersection(overlap(3, 4, false)));
    assert_eq!(queues.counts().0, 1);
    assert_eq!(queues.counts().1, 2);
}

#[test]
fn empty_batch_makes_no_call_and_leaves_queues_empty() {
    let mut queues = EventQueues::new();
    let calls = RefCell::new(0usize);
    let mut handler = Callback::new(|_event: &SimulationEvent| {
        *calls.borrow_mut() += 1;
    });
    queues.forward_events(&mut handler);
    assert!(queues.is_empty());
    queues.forward_events(&mut handler);
    assert!(queues.is_empty());
    assert_eq!(*calls.borrow(), 0);
    assert!(queues.drain().is_empty());
}

#[test]
fn every_queued_event_is_delivered_once() {
    let mut queues = EventQueues::new();
    queues.send(SimulationEvent::Contact(started(1, 2)));
    queues.send(SimulationEvent::Intersection(overlap(5, 6, true)));
    queues.send(SimulationEvent::Contact(started(3, 4)));
    queues.send(SimulationEvent::Contact(stopped(1, 2)));
    queues.send(SimulationEvent::Intersection(overlap(5, 6, false)));

    let contact_calls = RefCell::new(Vec::new());
    let intersection_calls = RefCell::new(Vec::new());
    let mut handler = Callback::new(|event: &SimulationEvent| match event {
        SimulationEvent::Contact(c) => contact_calls.borrow_mut().push(*c),
        SimulationEvent::Intersection(i) => intersection_calls.borrow_mut().push(*i),
    });
    queues.forward_events(&mut handler);

    assert_eq!(
        *contact_calls.borrow(),
        vec![started(1, 2), started(3, 4), stopped(1, 2)]
    );
    assert_eq!(
        *intersection_calls.borrow(),
        vec![overlap(5, 6, true), overlap(5, 6, false)]
    );
    assert!(queues.is_empty());
    assert_eq!(queues.counts().0, 0);
    assert_eq!(queues.counts().1, 0);
}

#[test]
fn contact_events_arrive_in_queue_order() {
    let a = started(10, 11);
    let b = stopped(10, 11);
    let mut queues = EventQueues::new();
    queues.send(SimulationEvent::Contact(a));
    queues.send(SimulationEvent::Contact(b));
    let mut log = EventLog::new();
    queues.forward_events(&mut log);
    assert_eq!(log.len(), 2);
    assert_eq!(log.get(0), Some(SimulationEvent::Contact(a)));
    assert_eq!(log.get(1), Some(SimulationEvent::Contact(b)));
    assert_eq!(log.get(2), None);
}

#[test]
fn intersections_are_delivered_before_contacts() {
    let mut queues = EventQueues::new();
    queues.send(SimulationEvent::Contact(started(1, 2)));
    queues.send(SimulationEvent::Intersection(overlap(3, 4, true)));
    let mut log = EventLog::new();
    queues.forward_events(&mut log);
    assert_eq!(
        entries(&log),
        vec![
            SimulationEvent::Intersection(overlap(3, 4, true)),
            SimulationEvent::Contact(started(1, 2)),
        ]
    );
}

#[test]
fn drain_returns_the_batch_and_empties_the_queues() {
    let mut queues = EventQueues::new();
    queues.send(SimulationEvent::Contact(stopped(7, 8)));
    queues.send(SimulationEvent::Intersection(overlap(1, 9, false)));
    queues.send(SimulationEvent::Intersection(overlap(2, 9, true)));
    let batch = queues.drain();
    assert_eq!(
        batch,
        vec![
            SimulationEvent::Intersection(overlap(1, 9, false)),
            SimulationEvent::Intersection(overlap(2, 9, true)),
            SimulationEvent::Contact(stopped(7, 8)),
        ]
    );
    assert!(queues.is_empty());
    assert_eq!(queues.drain(), Vec::new());
}

#[test]
fn delivered_events_are_never_delivered_again() {
    let mut queues = EventQueues::new();
    let mut log = EventLog::new();
    queues.send(SimulationEvent::Contact(started(1, 2)));
    queues.forward_events(&mut log);
    queues.forward_events(&mut log);
    assert_eq!(entries(&log), vec![SimulationEvent::Contact(started(1, 2))]);

    queues.send(SimulationEvent::Contact(stopped(1, 2)));
    queues.forward_events(&mut log);
    assert_eq!(
        entries(&log),
        vec![
            SimulationEvent::Contact(started(1, 2)),
            SimulationEvent::Contact(stopped(1, 2)),
        ]
    );
}

#[test]
fn log_records_events_handed_to_it_directly() {
    let mut log = EventLog::new();
    assert_eq!(log.len(), 0);
    assert_eq!(log.get(0), None);
    let e = SimulationEvent::Intersection(overlap(1, 2, true));
    log.handle(&e);
    assert_eq!(log.len(), 1);
    assert_eq!(log.get(0), Some(e));
    assert_eq!(log.get(1), None);
}

#[test]
fn callback_is_called_with_the_event_itself() {
    let seen = RefCell::new(Vec::new());
    let mut handler = Callback::new(|event: &SimulationEvent| seen.borrow_mut().push(*event));
    let e = SimulationEvent::Contact(started(4, 2));
    handler.handle(&e);
    handler.handle(&e);
    assert_eq!(*seen.borrow(), vec![e, e]);
}

#[test]
fn many_events_keep_count_and_order() {
    let mut queues = EventQueues::new();
    let mut i: u32 = 0;
    while i < 100 {
        queues.send(SimulationEvent::Contact(started(i, i + 1)));
        if i % 2 == 0 {
            queues.send(SimulationEvent::Intersection(overlap(i, 1000, true)));
        }
        i += 1;
    }
    assert_eq!(queues.counts().0, 100);
    assert_eq!(queues.counts().1, 50);
    let mut log = EventLog::new();
    queues.forward_events(&mut log);
    assert_eq!(log.len(), 150);
    assert_eq!(log.get(0), Some(SimulationEvent::Intersection(overlap(0, 1000, true))));
    assert_eq!(log.get(49), Some(SimulationEvent::Intersection(overlap(98, 1000, true))));
    assert_eq!(log.get(50), Some(SimulationEvent::Contact(started(0, 1))));
    assert_eq!(log.get(149), Some(SimulationEvent::Contact(started(99, 100))));
    assert!(queues.is_empty());
}

#[test]
fn merged_batch_lists_intersections_then_contacts() {
    let contacts = vec![started(1, 2), stopped(1, 2)];
    let intersections = vec![overlap(3, 4, true)];
    assert_eq!(
        merge_batches(&contacts, &intersections),
        vec![
            SimulationEvent::Intersection(overlap(3, 4, true)),
            SimulationEvent::Contact(started(1, 2)),
            SimulationEvent::Contact(stopped(1, 2)),
        ]
    );
    assert_eq!(merge_batches(&Vec::new(), &Vec::new()), Vec::new());
}

#[test]
fn deliver_appends_the_batch_to_what_was_received() {
    let first = SimulationEvent::Contact(started(1, 2));
    let second = SimulationEvent::Intersection(overlap(3, 4, false));
    let third = SimulationEvent::Contact(stopped(1, 2));
    let mut log = EventLog::new();
    log.handle(&first);
    deliver(&vec![second, third], &mut log);
    assert_eq!(entries(&log), vec![first, second, third]);
    deliver(&Vec::new(), &mut log);
    assert_eq!(log.len(), 3);
}

#[test]
fn counts_follow_sends_and_drains() {
    let mut queues = EventQueues::new();
    queues.send(SimulationEvent::Contact(started(1, 2)));
    queues.send(SimulationEvent::Contact(started(2, 3)));
    queues.send(SimulationEvent::Intersection(overlap(1, 3, true)));
    assert_eq!(queues.counts(), (2, 1));
    assert_eq!(queues.drain().len(), 3);
    assert_eq!(queues.counts(), (0, 0));
    queues.send(SimulationEvent::Intersection(overlap(1, 3, false)));
    assert_eq!(queues.counts(), (0, 1));
    assert_eq!(
        queues.drain(),
        vec![SimulationEvent::Intersection(overlap(1, 3, false))]
    );
}
