//! Who the node is to the coordinator: its wallet and its token.

pub mod base58;
pub mod token;
pub mod wallet;
