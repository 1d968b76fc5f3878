//! The coordinator's HTTP interface.

pub mod client;
