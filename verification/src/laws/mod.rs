//! What the operations of a node are for. Each law speaks of the functions themselves: of every
//! result that a function may return for its arguments, of how two calls relate, and of whole
//! courses of events.

pub mod containers;
pub mod heartbeats;
pub mod matches;
pub mod polling;
pub mod posts;
pub mod setup;
pub mod texts;
pub mod time;
