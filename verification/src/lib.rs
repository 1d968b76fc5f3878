//! The decisions of a DFC node, stated and proved: its configuration, its wallet and token, what
//! it asks of the coordinator, how it runs matches in containers and when it sends heartbeats.
//!
//! Nothing here touches the network, the clock or the container daemon. Each long-running
//! activity is a function from what happened to what has to be done next.

pub mod api;
pub mod assignments;
pub mod auth;
pub mod clock;
pub mod config;
pub mod docker;
pub mod heartbeat;
pub mod laws;
pub mod match_run;
pub mod node;
pub mod slots;
pub mod text;
pub mod types;
