//! Relay of simulation events from a physics step to its subscribers.
//!
//! A physics step leaves two ordered queues behind, one of contact events and
//! one of intersection events. The bridge empties both and hands every event,
//! once and in the order it was queued, to a handler.

pub mod bridge;
pub mod events;
pub mod handler;
pub mod order;
