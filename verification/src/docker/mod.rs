//! Gladiator containers.

pub mod env;
pub mod manager;
